//! SIP messages as plain values: what the call logic reads and writes of a packet.
use vstd::prelude::*;

verus! {

/// A SIP method. The methods that the service acts on have names of their own.
#[derive(Debug, PartialEq, Eq)]
pub enum Method {
    Invite,
    Ack,
    Bye,
    Cancel,
    Other(String),
}

pub enum MethodView {
    Invite,
    Ack,
    Bye,
    Cancel,
    Other(Seq<char>),
}

impl View for Method {
    type V = MethodView;

    open spec fn view(&self) -> MethodView {
        match self {
            Method::Invite => MethodView::Invite,
            Method::Ack => MethodView::Ack,
            Method::Bye => MethodView::Bye,
            Method::Cancel => MethodView::Cancel,
            Method::Other(name) => MethodView::Other(name@),
        }
    }
}

impl Clone for Method {
    fn clone(&self) -> (r: Self)
        ensures
            r@ == self@,
    {
        match self {
            Method::Invite => Method::Invite,
            Method::Ack => Method::Ack,
            Method::Bye => Method::Bye,
            Method::Cancel => Method::Cancel,
            Method::Other(name) => Method::Other(name.clone()),
        }
    }
}

/// The name of a header field.
#[derive(Debug, PartialEq, Eq)]
pub enum HeaderName {
    CallId,
    From,
    To,
    CSeq,
    Contact,
    ContentType,
    Other(String),
}

pub enum HeaderNameView {
    CallId,
    From,
    To,
    CSeq,
    Contact,
    ContentType,
    Other(Seq<char>),
}

impl View for HeaderName {
    type V = HeaderNameView;

    open spec fn view(&self) -> HeaderNameView {
        match self {
            HeaderName::CallId => HeaderNameView::CallId,
            HeaderName::From => HeaderNameView::From,
            HeaderName::To => HeaderNameView::To,
            HeaderName::CSeq => HeaderNameView::CSeq,
            HeaderName::Contact => HeaderNameView::Contact,
            HeaderName::ContentType => HeaderNameView::ContentType,
            HeaderName::Other(name) => HeaderNameView::Other(name@),
        }
    }
}

impl Clone for HeaderName {
    fn clone(&self) -> (r: Self)
        ensures
            r@ == self@,
    {
        match self {
            HeaderName::CallId => HeaderName::CallId,
            HeaderName::From => HeaderName::From,
            HeaderName::To => HeaderName::To,
            HeaderName::CSeq => HeaderName::CSeq,
            HeaderName::Contact => HeaderName::Contact,
            HeaderName::ContentType => HeaderName::ContentType,
            HeaderName::Other(name) => HeaderName::Other(name.clone()),
        }
    }
}

impl HeaderName {
    /// Whether two names are the same.
    pub fn is(&self, other: &HeaderName) -> (r: bool)
        ensures
            r == (self@ == other@),
    {
        match (self, other) {
            (HeaderName::CallId, HeaderName::CallId) => true,
            (HeaderName::From, HeaderName::From) => true,
            (HeaderName::To, HeaderName::To) => true,
            (HeaderName::CSeq, HeaderName::CSeq) => true,
            (HeaderName::Contact, HeaderName::Contact) => true,
            (HeaderName::ContentType, HeaderName::ContentType) => true,
            (HeaderName::Other(a), HeaderName::Other(b)) => a.eq(b),
            _ => false,
        }
    }
}

/// A header field.
#[derive(Debug, PartialEq, Eq)]
pub struct Header {
    pub name: HeaderName,
    pub value: String,
}

pub struct HeaderView {
    pub name: HeaderNameView,
    pub value: Seq<char>,
}

impl View for Header {
    type V = HeaderView;

    open spec fn view(&self) -> HeaderView {
        HeaderView { name: self.name@, value: self.value@ }
    }
}

impl Clone for Header {
    fn clone(&self) -> (r: Self)
        ensures
            r@ == self@,
    {
        Header { name: self.name.clone(), value: self.value.clone() }
    }
}

impl Header {
    /// The field of that name and that value.
    pub fn new(name: HeaderName, value: String) -> (r: Self)
        ensures
            r@ == (HeaderView { name: name@, value: value@ }),
    {
        Header { name, value }
    }
}

/// The header fields of a message, in order.
pub open spec fn headers_view(headers: Seq<Header>) -> Seq<HeaderView> {
    headers.map_values(|h: Header| h@)
}

/// The value of the first header field of that name.
pub open spec fn header_value(headers: Seq<HeaderView>, name: HeaderNameView) -> Option<Seq<char>>
    decreases headers.len(),
{
    if headers.len() == 0 {
        None
    } else if headers.first().name == name {
        Some(headers.first().value)
    } else {
        header_value(headers.drop_first(), name)
    }
}

/// The value of the first header field of that name, or the empty text.
pub open spec fn header_or_empty(headers: Seq<HeaderView>, name: HeaderNameView) -> Seq<char> {
    match header_value(headers, name) {
        Some(value) => value,
        None => Seq::empty(),
    }
}

/// A SIP request or response.
#[derive(Debug, PartialEq, Eq)]
pub struct SipPacket {
    pub is_request: bool,
    pub method: Method,
    /// The request URI; empty in a response.
    pub uri: String,
    /// The status code; meaningless in a request.
    pub status_code: u16,
    /// The reason phrase; empty in a request.
    pub reason: String,
    pub headers: Vec<Header>,
    pub body: Vec<u8>,
}

#[verifier::ext_equal]
pub struct SipPacketView {
    pub is_request: bool,
    pub method: MethodView,
    pub uri: Seq<char>,
    pub status_code: u16,
    pub reason: Seq<char>,
    pub headers: Seq<HeaderView>,
    pub body: Seq<u8>,
}

impl SipPacketView {
    /// The dialog that the packet belongs to.
    pub open spec fn call_id(self) -> Seq<char> {
        header_or_empty(self.headers, HeaderNameView::CallId)
    }

    pub open spec fn from_uri(self) -> Seq<char> {
        header_or_empty(self.headers, HeaderNameView::From)
    }

    pub open spec fn to_uri(self) -> Seq<char> {
        header_or_empty(self.headers, HeaderNameView::To)
    }
}

impl View for SipPacket {
    type V = SipPacketView;

    open spec fn view(&self) -> SipPacketView {
        SipPacketView {
            is_request: self.is_request,
            method: self.method@,
            uri: self.uri@,
            status_code: self.status_code,
            reason: self.reason@,
            headers: headers_view(self.headers@),
            body: self.body@,
        }
    }
}

impl Clone for SipPacket {
    fn clone(&self) -> (r: Self)
        ensures
            r@ == self@,
    {
        let headers = self.headers.clone();
        let body = self.body.clone();
        assert(body@ == self.body@);
        assert(headers_view(headers@) == headers_view(self.headers@));
        SipPacket {
            is_request: self.is_request,
            method: self.method.clone(),
            uri: self.uri.clone(),
            status_code: self.status_code,
            reason: self.reason.clone(),
            headers,
            body,
        }
    }
}

impl SipPacket {
    /// The value of the first header field of that name.
    pub fn get_header_value(&self, name: &HeaderName) -> (r: Option<&String>)
        ensures
            match r {
                Some(value) => header_value(self@.headers, name@) == Some(value@),
                None => header_value(self@.headers, name@) is None,
            },
    {
        let mut i: usize = 0;
        assert(self@.headers.skip(0) == self@.headers);
        while i < self.headers.len()
            invariant
                i <= self.headers.len(),
                header_value(self@.headers, name@) == header_value(
                    self@.headers.skip(i as int),
                    name@,
                ),
            decreases self.headers.len() - i,
        {
            let header = &self.headers[i];
            assert(self@.headers.skip(i as int).first() == header@);
            if header.name.is(name) {
                return Some(&header.value);
            }
            assert(self@.headers.skip(i as int).drop_first() == self@.headers.skip(i + 1));
            i = i + 1;
        }
        None
    }

    /// The value of the first header field of that name, or the empty text.
    pub fn header_or_default(&self, name: &HeaderName) -> (r: String)
        ensures
            r@ == header_or_empty(self@.headers, name@),
    {
        match self.get_header_value(name) {
            Some(value) => value.clone(),
            None => String::new(),
        }
    }

    /// The value of the Call-ID field, or the empty text.
    pub fn call_id(&self) -> (r: String)
        ensures
            r@ == self@.call_id(),
    {
        self.header_or_default(&HeaderName::CallId)
    }
}

/// The value of a header field is that of the first field of its name: fields of other names before
/// it and fields of any name behind it do not matter. A name that no field has, has no value.
pub proof fn first_field_of_a_name_counts(
    before: Seq<HeaderView>,
    field: HeaderView,
    after: Seq<HeaderView>,
)
    requires
        forall|i: int| 0 <= i < before.len() ==> (#[trigger] before[i]).name != field.name,
    ensures
        header_value(before + seq![field] + after, field.name) == Some(field.value),
        header_or_empty(before + seq![field] + after, field.name) == field.value,
        header_value(before, field.name) is None,
        header_or_empty(before, field.name) == Seq::<char>::empty(),
    decreases before.len(),
{
    let all = before + seq![field] + after;
    if before.len() == 0 {
        assert(all.first() == field);
    } else {
        let rest = before.drop_first();
        assert(all.first() == before[0]);
        assert(all.drop_first() == rest + seq![field] + after);
        assert forall|i: int| 0 <= i < rest.len() implies (#[trigger] rest[i]).name != field.name by {
            assert(rest[i] == before[i + 1]);
        }
        first_field_of_a_name_counts(rest, field, after);
    }
}

/// What a packet says of itself: the call is the value of its first Call-ID field, the caller that of
/// its first From field and the called party that of its first To field, each empty where there is
/// no such field.
pub proof fn packet_is_named_by_its_fields(packet: SipPacketView, i: int)
    requires
        0 <= i < packet.headers.len(),
        forall|k: int|
            0 <= k < i ==> (#[trigger] packet.headers[k]).name != packet.headers[i].name,
    ensures
        packet.headers[i].name is CallId ==> packet.call_id() == packet.headers[i].value,
        packet.headers[i].name is From ==> packet.from_uri() == packet.headers[i].value,
        packet.headers[i].name is To ==> packet.to_uri() == packet.headers[i].value,
{
    let before = packet.headers.take(i);
    let after = packet.headers.skip(i + 1);
    assert(packet.headers == before + seq![packet.headers[i]] + after);
    assert forall|k: int| 0 <= k < before.len() implies (#[trigger] before[k]).name
        != packet.headers[i].name by {
        assert(before[k] == packet.headers[k]);
    }
    first_field_of_a_name_counts(before, packet.headers[i], after);
}

/// A packet without a field of that name has no name of that kind.
pub proof fn packet_without_a_field_is_unnamed(packet: SipPacketView, name: HeaderNameView)
    requires
        forall|k: int| 0 <= k < packet.headers.len() ==> (#[trigger] packet.headers[k]).name != name,
    ensures
        name is CallId ==> packet.call_id().len() == 0,
        name is From ==> packet.from_uri().len() == 0,
        name is To ==> packet.to_uri().len() == 0,
{
    let field = HeaderView { name, value: Seq::empty() };
    first_field_of_a_name_counts(packet.headers, field, Seq::empty());
}

/// A packet is seen whole: every field, each header field in its place with its name and its value,
/// and each name for what it is.
pub proof fn packet_is_seen_whole(packet: SipPacket, header: Header, text: String)
    ensures
        packet@.is_request == packet.is_request,
        packet@.status_code == packet.status_code,
        packet@.method == packet.method@,
        packet@.uri == packet.uri@,
        packet@.reason == packet.reason@,
        packet@.body == packet.body@,
        packet@.headers.len() == packet.headers@.len(),
        forall|i: int|
            0 <= i < packet.headers@.len() ==> #[trigger] packet@.headers[i] == packet.headers@[i]@,
        header@.name == header.name@,
        header@.value == header.value@,
        Method::Invite@ is Invite,
        Method::Ack@ is Ack,
        Method::Bye@ is Bye,
        Method::Cancel@ is Cancel,
        Method::Other(text)@ == MethodView::Other(text@),
        HeaderName::CallId@ is CallId,
        HeaderName::From@ is From,
        HeaderName::To@ is To,
        HeaderName::CSeq@ is CSeq,
        HeaderName::Contact@ is Contact,
        HeaderName::ContentType@ is ContentType,
        HeaderName::Other(text)@ == HeaderNameView::Other(text@),
{
}

} // verus!
