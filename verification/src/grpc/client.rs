//! The services that this one depends on: where they are, and under which names.
use crate::config::AppConfig;
use crate::text::{chars_of, has_pattern, replace, replaced, starts_with, text_of};
use vstd::prelude::*;

verus! {

/// How long a connection may take.
pub const CONNECT_TIMEOUT_SECS: u64 = 2;

/// The pause between two pings on a connection, idle or not.
pub const KEEP_ALIVE_INTERVAL_SECS: u64 = 10;

/// How long a ping may go unanswered.
pub const KEEP_ALIVE_TIMEOUT_SECS: u64 = 3;

/// The URL of a service: always secure.
pub open spec fn target_url_of(url: Seq<char>) -> Seq<char> {
    if "http"@.is_prefix_of(url) {
        if "http://"@.is_prefix_of(url) {
            replaced(url, "http://"@, "https://"@)
        } else {
            url
        }
    } else {
        "https://"@ + url
    }
}

/// The URL under which a service is called.
pub fn target_url(url: &str) -> (r: String)
    ensures
        r@ == target_url_of(url@),
{
    let chars = chars_of(url);
    if starts_with(&chars, "http") {
        if starts_with(&chars, "http://") {
            proof {
                reveal_strlit("http://");
            }
            text_of(&replace(&chars, "http://", "https://"))
        } else {
            url.to_owned()
        }
    } else {
        let mut r = "https://".to_owned();
        r.append(url);
        r
    }
}

/// No service is called without encryption.
pub proof fn no_plain_http(url: Seq<char>)
    ensures
        !"http://"@.is_prefix_of(target_url_of(url)),
{
    reveal_strlit("http://");
    reveal_strlit("https://");
    reveal_strlit("http");
    let target = target_url_of(url);
    if "http"@.is_prefix_of(url) {
        if "http://"@.is_prefix_of(url) {
            assert(target == "https://"@ + replaced(url.skip(7), "http://"@, "https://"@));
            assert(target[4] == 's');
        }
    } else {
        assert(target[4] == 's');
    }
    if "http://"@.is_prefix_of(target) {
        assert("http://"@[4] == target[4]);
    }
}

/// A plain URL is called at the same place, and a secure one as it stands.
pub proof fn place_is_kept(place: Seq<char>)
    requires
        !has_pattern(place, "http://"@),
    ensures
        target_url_of("http://"@ + place) == "https://"@ + place,
        target_url_of("https://"@ + place) == "https://"@ + place,
{
    reveal_strlit("http://");
    reveal_strlit("https://");
    reveal_strlit("http");
    let plain = "http://"@ + place;
    let secure = "https://"@ + place;
    assert("http"@.is_prefix_of(plain)) by {
        assert(plain.subrange(0, 4) == "http"@);
    }
    assert("http://"@.is_prefix_of(plain)) by {
        assert(plain.subrange(0, 7) == "http://"@);
    }
    assert(plain.skip(7) == place);
    lemma_nothing_replaced(place, "http://"@, "https://"@);
    assert("http"@.is_prefix_of(secure)) by {
        assert(secure.subrange(0, 4) == "http"@);
    }
    if "http://"@.is_prefix_of(secure) {
        assert("http://"@[4] == secure[4]);
    }
}

/// A text without the pattern is left as it is.
proof fn lemma_nothing_replaced(s: Seq<char>, pattern: Seq<char>, by: Seq<char>)
    requires
        !has_pattern(s, pattern),
    ensures
        replaced(s, pattern, by) == s,
    decreases s.len(),
{
    if s.len() > 0 {
        assert(s.skip(0) == s);
        assert forall|i: int| 0 <= i <= s.drop_first().len() implies !pattern.is_prefix_of(
            #[trigger] s.drop_first().skip(i),
        ) by {
            assert(s.drop_first().skip(i) == s.skip(i + 1));
        }
        lemma_nothing_replaced(s.drop_first(), pattern, by);
        if pattern.len() > 0 {
            assert(!pattern.is_prefix_of(s));
            assert(seq![s.first()] + s.drop_first() == s);
        }
    }
}

/// A service: the URL under which it is called, and the name that its certificate must bear.
#[derive(Debug, PartialEq, Eq)]
pub struct ServiceEndpoint {
    pub url: String,
    pub server_name: String,
}

/// The services that this one calls.
#[derive(Debug, Clone, Copy, PartialEq, Eq, Structural)]
pub enum Service {
    Media,
    Registrar,
    User,
    Dialplan,
}

/// The services, each with where it is.
#[derive(Debug, PartialEq, Eq)]
pub struct InternalClients {
    pub media: ServiceEndpoint,
    pub registrar: ServiceEndpoint,
    pub user: ServiceEndpoint,
    pub dialplan: ServiceEndpoint,
}

impl ServiceEndpoint {
    /// The endpoint is that of the service with that name and that configured URL.
    pub open spec fn is_of(&self, url: Seq<char>, server_name: Seq<char>) -> bool {
        &&& self.url@ == target_url_of(url)
        &&& self.server_name@ == server_name
    }

    /// The service with that configured URL and that name.
    pub fn new(url: &str, server_name: &str) -> (r: Self)
        ensures
            r.is_of(url@, server_name@),
    {
        ServiceEndpoint { url: target_url(url), server_name: server_name.to_owned() }
    }
}

impl InternalClients {
    /// Where the services are, in the order in which they are connected to.
    pub fn connect(config: &AppConfig) -> (r: Self)
        ensures
            r.media.is_of(config@.media_service_url, "media-service"@),
            r.registrar.is_of(config@.registrar_service_url, "registrar-service"@),
            r.user.is_of(config@.user_service_url, "user-service"@),
            r.dialplan.is_of(config@.dialplan_service_url, "dialplan-service"@),
    {
        InternalClients {
            media: ServiceEndpoint::new(config.media_service_url.as_str(), "media-service"),
            registrar: ServiceEndpoint::new(
                config.registrar_service_url.as_str(),
                "registrar-service",
            ),
            user: ServiceEndpoint::new(config.user_service_url.as_str(), "user-service"),
            dialplan: ServiceEndpoint::new(
                config.dialplan_service_url.as_str(),
                "dialplan-service",
            ),
        }
    }

    /// Where a service is.
    pub fn endpoint(&self, service: Service) -> (r: &ServiceEndpoint)
        ensures
            *r == self.endpoint_of(service),
    {
        match service {
            Service::Media => &self.media,
            Service::Registrar => &self.registrar,
            Service::User => &self.user,
            Service::Dialplan => &self.dialplan,
        }
    }

    /// Where a service is.
    pub open spec fn endpoint_of(&self, service: Service) -> ServiceEndpoint {
        match service {
            Service::Media => self.media,
            Service::Registrar => self.registrar,
            Service::User => self.user,
            Service::Dialplan => self.dialplan,
        }
    }
}

/// A channel to each of the services.
#[derive(Debug, PartialEq, Eq)]
pub struct ServiceChannels<C> {
    pub media: C,
    pub registrar: C,
    pub user: C,
    pub dialplan: C,
}

/// How far connecting to the services has come: the channels to those that have been reached. The
/// variant is named after the service that is tried next.
#[derive(Debug, PartialEq, Eq)]
pub enum Connecting<C> {
    Media,
    Registrar { media: C },
    User { media: C, registrar: C },
    Dialplan { media: C, registrar: C, user: C },
}

/// What follows a try of a service.
#[derive(Debug, PartialEq, Eq)]
pub enum ServiceStep<C, E> {
    /// The next service is tried.
    Continue(Connecting<C>),
    /// Every service has been reached.
    Connected(ServiceChannels<C>),
    /// A service could not be reached, and no other is tried.
    Failed(E),
}

impl<C> Connecting<C> {
    /// The service that is tried next.
    pub open spec fn service_spec(self) -> Service {
        match self {
            Connecting::Media => Service::Media,
            Connecting::Registrar { .. } => Service::Registrar,
            Connecting::User { .. } => Service::User,
            Connecting::Dialplan { .. } => Service::Dialplan,
        }
    }

    /// What follows, where `outcome` is what trying that service came to.
    pub open spec fn step<E>(self, outcome: Result<C, E>) -> ServiceStep<C, E> {
        match outcome {
            Err(error) => ServiceStep::Failed(error),
            Ok(channel) => match self {
                Connecting::Media => ServiceStep::Continue(Connecting::Registrar { media: channel }),
                Connecting::Registrar { media } => ServiceStep::Continue(
                    Connecting::User { media, registrar: channel },
                ),
                Connecting::User { media, registrar } => ServiceStep::Continue(
                    Connecting::Dialplan { media, registrar, user: channel },
                ),
                Connecting::Dialplan { media, registrar, user } => ServiceStep::Connected(
                    ServiceChannels { media, registrar, user, dialplan: channel },
                ),
            },
        }
    }

    /// No service has been tried.
    pub fn start() -> (r: Self)
        ensures
            r == Connecting::<C>::Media,
    {
        Connecting::Media
    }

    /// The service that is tried next.
    pub fn service(&self) -> (r: Service)
        ensures
            r == self.service_spec(),
    {
        match self {
            Connecting::Media => Service::Media,
            Connecting::Registrar { .. } => Service::Registrar,
            Connecting::User { .. } => Service::User,
            Connecting::Dialplan { .. } => Service::Dialplan,
        }
    }

    /// Goes on once that service has been tried.
    pub fn answered<E>(self, outcome: Result<C, E>) -> (r: ServiceStep<C, E>)
        ensures
            r == self.step(outcome),
    {
        match outcome {
            Err(error) => ServiceStep::Failed(error),
            Ok(channel) => match self {
                Connecting::Media => ServiceStep::Continue(Connecting::Registrar { media: channel }),
                Connecting::Registrar { media } => ServiceStep::Continue(
                    Connecting::User { media, registrar: channel },
                ),
                Connecting::User { media, registrar } => ServiceStep::Continue(
                    Connecting::Dialplan { media, registrar, user: channel },
                ),
                Connecting::Dialplan { media, registrar, user } => ServiceStep::Connected(
                    ServiceChannels { media, registrar, user, dialplan: channel },
                ),
            },
        }
    }
}

/// What connecting to the services came to, and which of them were tried, in order.
pub struct ServiceRun<C, E> {
    pub end: Result<ServiceChannels<C>, E>,
    pub tried: Seq<Service>,
}

/// How many services are still to be tried.
pub open spec fn services_left<C>(state: Connecting<C>) -> nat {
    match state.service_spec() {
        Service::Media => 4,
        Service::Registrar => 3,
        Service::User => 2,
        Service::Dialplan => 1,
    }
}

/// Connecting from a state on, where `outcomes` says what trying each service comes to.
pub open spec fn service_run<C, E>(
    state: Connecting<C>,
    outcomes: spec_fn(Service) -> Result<C, E>,
) -> ServiceRun<C, E>
    decreases services_left(state),
{
    let service = state.service_spec();
    match state.step(outcomes(service)) {
        ServiceStep::Failed(error) => ServiceRun { end: Err(error), tried: seq![service] },
        ServiceStep::Connected(channels) => ServiceRun { end: Ok(channels), tried: seq![service] },
        ServiceStep::Continue(next) => {
            let rest = service_run(next, outcomes);
            ServiceRun { end: rest.end, tried: seq![service] + rest.tried }
        },
    }
}

/// The services, in the order in which they are connected to.
pub open spec fn service_order() -> Seq<Service> {
    seq![Service::Media, Service::Registrar, Service::User, Service::Dialplan]
}

/// The services are connected to in their order. All of them are tried where each can be reached, and
/// each then has its own channel. Otherwise the first failure is what connecting comes to, and no
/// later service is tried.
pub proof fn services_are_connected_in_order<C, E>(outcomes: spec_fn(Service) -> Result<C, E>)
    ensures
        ({
            let run = service_run(Connecting::Media, outcomes);
            let order = service_order();
            &&& run.end is Ok <==> forall|i: int|
                0 <= i < 4 ==> outcomes(#[trigger] order[i]) is Ok
            &&& run.end matches Ok(channels) ==> {
                &&& outcomes(Service::Media) == Ok::<C, E>(channels.media)
                &&& outcomes(Service::Registrar) == Ok::<C, E>(channels.registrar)
                &&& outcomes(Service::User) == Ok::<C, E>(channels.user)
                &&& outcomes(Service::Dialplan) == Ok::<C, E>(channels.dialplan)
                &&& run.tried == order
            }
            &&& run.end matches Err(error) ==> exists|k: int|
                {
                    &&& 0 <= k < 4
                    &&& outcomes(#[trigger] order[k]) == Err::<C, E>(error)
                    &&& forall|j: int| 0 <= j < k ==> outcomes(#[trigger] order[j]) is Ok
                    &&& run.tried == order.take(k + 1)
                }
        }),
{
    reveal_with_fuel(service_run, 5);
    let run = service_run(Connecting::Media, outcomes);
    let order = service_order();
    assert(order[0] == Service::Media && order[1] == Service::Registrar && order[2]
        == Service::User && order[3] == Service::Dialplan);
    let k: int = if outcomes(Service::Media) is Err {
        0
    } else if outcomes(Service::Registrar) is Err {
        1
    } else if outcomes(Service::User) is Err {
        2
    } else {
        3
    };
    assert(run.tried == order.take(k + 1));
    assert(order.take(4) == order);
    if run.end is Err {
        assert(outcomes(order[k]) is Err);
    }
}

/// The URL of a service is the configured one, made secure and otherwise as it stands: a URL that
/// begins with another scheme of that family is not touched, a bare one gets the secure scheme before
/// it, and in a plain one every occurrence of the plain scheme gives way to the secure one.
pub proof fn urls_are_only_made_secure(url: Seq<char>)
    ensures
        !"http"@.is_prefix_of(url) ==> target_url_of(url) == "https://"@ + url,
        "http"@.is_prefix_of(url) && !"http://"@.is_prefix_of(url) ==> target_url_of(url) == url,
        target_url_of("http://"@ + url) == "https://"@ + replaced(url, "http://"@, "https://"@),
{
    reveal_strlit("http://");
    reveal_strlit("http");
    let plain = "http://"@ + url;
    assert(plain.subrange(0, 4) == "http"@);
    assert(plain.subrange(0, 7) == "http://"@);
    assert(plain.skip(7) == url);
}

/// A service is called under the URL and the name that are kept for it, and no other.
pub proof fn endpoints_are_kept_apart(
    clients: InternalClients,
    endpoint: ServiceEndpoint,
    url: Seq<char>,
    name: Seq<char>,
)
    ensures
        clients.endpoint_of(Service::Media) == clients.media,
        clients.endpoint_of(Service::Registrar) == clients.registrar,
        clients.endpoint_of(Service::User) == clients.user,
        clients.endpoint_of(Service::Dialplan) == clients.dialplan,
        endpoint.is_of(url, name) <==> endpoint.url@ == target_url_of(url) && endpoint.server_name@
            == name,
{
}

} // verus!
