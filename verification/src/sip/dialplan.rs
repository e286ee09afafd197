//! What the dialplan service decides on a call.
use vstd::prelude::*;

verus! {

/// The kinds of treatment. The service passes them on and answers every call alike.
#[derive(Debug, Clone, Copy, PartialEq, Eq, Structural)]
pub enum ActionType {
    Unspecified,
    /// The caller is to hear its own voice, which other services bring about.
    EchoTest,
    /// Any other treatment, by its number.
    Other(i32),
}

/// The treatment of a call: its kind, unless the number that came names none.
#[derive(Debug, Clone, Copy, PartialEq, Eq, Structural)]
pub struct DialplanAction {
    pub action_type: Option<ActionType>,
}

impl DialplanAction {
    /// The kind of treatment.
    pub open spec fn kind_spec(self) -> ActionType {
        match self.action_type {
            Some(kind) => kind,
            None => ActionType::Unspecified,
        }
    }

    /// The kind of treatment; a number that names none is taken as unspecified.
    pub fn kind(&self) -> (r: ActionType)
        ensures
            r == self.kind_spec(),
    {
        match self.action_type {
            Some(kind) => kind,
            None => ActionType::Unspecified,
        }
    }
}

/// An answer of the dialplan service: the treatment, and the whole answer as it was encoded.
#[derive(Debug, PartialEq, Eq)]
pub struct DialplanResolution {
    pub action: Option<DialplanAction>,
    pub encoded: Vec<u8>,
}

pub struct DialplanResolutionView {
    pub action: Option<DialplanAction>,
    pub encoded: Seq<u8>,
}

impl View for DialplanResolution {
    type V = DialplanResolutionView;

    open spec fn view(&self) -> DialplanResolutionView {
        DialplanResolutionView { action: self.action, encoded: self.encoded@ }
    }
}

pub open spec fn resolution_view(r: Option<DialplanResolution>) -> Option<
    DialplanResolutionView,
> {
    match r {
        Some(resolution) => Some(resolution@),
        None => None,
    }
}

/// The kind of a treatment is the one that came; a number that names none counts as unspecified.
pub proof fn kind_is_the_one_that_came(kind: ActionType)
    ensures
        (DialplanAction { action_type: Some(kind) }).kind_spec() == kind,
        (DialplanAction { action_type: None }).kind_spec() == ActionType::Unspecified,
{
}

/// An answer of the dialplan is seen whole.
pub proof fn resolution_is_seen_whole(resolution: DialplanResolution)
    ensures
        resolution@.action == resolution.action,
        resolution@.encoded == resolution.encoded@,
        resolution_view(Some(resolution)) == Some(resolution@),
        resolution_view(None) is None,
{
}

} // verus!
