//! The configuration of the service, read from the environment.
use crate::text::{chars_of, format_socket, parse_port, parse_u16, port_of, socket_text, u16_of};
use vstd::prelude::*;

verus! {

/// The variables of an environment, as names and values.
pub type Environment = Vec<(String, String)>;

/// The value of a variable: that of the first entry with its name.
pub open spec fn env_value(env: Seq<(String, String)>, name: Seq<char>) -> Option<Seq<char>>
    decreases env.len(),
{
    if env.len() == 0 {
        None
    } else if env.first().0@ == name {
        Some(env.first().1@)
    } else {
        env_value(env.drop_first(), name)
    }
}

/// The value of a variable, or a default.
pub open spec fn env_or(
    env: Seq<(String, String)>,
    name: Seq<char>,
    default: Seq<char>,
) -> Seq<char> {
    match env_value(env, name) {
        Some(value) => value,
        None => default,
    }
}

/// The value of a variable.
fn lookup(env: &Environment, name: &str) -> (r: Option<String>)
    ensures
        match r {
            Some(value) => env_value(env@, name@) == Some(value@),
            None => env_value(env@, name@) is None,
        },
{
    let wanted = name.to_owned();
    let mut i: usize = 0;
    assert(env@.skip(0) == env@);
    while i < env.len()
        invariant
            i <= env.len(),
            wanted@ == name@,
            env_value(env@, name@) == env_value(env@.skip(i as int), name@),
        decreases env.len() - i,
    {
        assert(env@.skip(i as int).drop_first() == env@.skip(i + 1));
        if env[i].0.eq(&wanted) {
            return Some(env[i].1.clone());
        }
        i = i + 1;
    }
    None
}

/// The value of a variable, or a default.
fn lookup_or(env: &Environment, name: &str, default: &str) -> (r: String)
    ensures
        r@ == env_or(env@, name@, default@),
{
    match lookup(env, name) {
        Some(value) => value,
        None => default.to_owned(),
    }
}

/// Why a configuration cannot be read.
#[derive(Debug, PartialEq, Eq)]
pub enum ConfigError {
    InvalidSipPort,
    InvalidGrpcAddress,
    InvalidHttpAddress,
    /// A variable that must be set is not.
    Missing(String),
}

pub enum ConfigErrorView {
    InvalidSipPort,
    InvalidGrpcAddress,
    InvalidHttpAddress,
    Missing(Seq<char>),
}

impl View for ConfigError {
    type V = ConfigErrorView;

    open spec fn view(&self) -> ConfigErrorView {
        match self {
            ConfigError::InvalidSipPort => ConfigErrorView::InvalidSipPort,
            ConfigError::InvalidGrpcAddress => ConfigErrorView::InvalidGrpcAddress,
            ConfigError::InvalidHttpAddress => ConfigErrorView::InvalidHttpAddress,
            ConfigError::Missing(name) => ConfigErrorView::Missing(name@),
        }
    }
}

/// The text that is shown for an error.
pub open spec fn message_of(error: ConfigErrorView) -> Seq<char> {
    match error {
        ConfigErrorView::InvalidSipPort => "Geçersiz SIP portu"@,
        ConfigErrorView::InvalidGrpcAddress => "invalid socket address syntax"@,
        ConfigErrorView::InvalidHttpAddress => "invalid socket address syntax"@,
        ConfigErrorView::Missing(name) => "ZORUNLU: "@ + name,
    }
}

/// The text for a variable that is not set ends with its whole name.
pub proof fn missing_variables_are_shown(name: Seq<char>)
    ensures
        message_of(ConfigErrorView::Missing(name)).take(9) == "ZORUNLU: "@,
        message_of(ConfigErrorView::Missing(name)).skip(9) == name,
        message_of(ConfigErrorView::InvalidSipPort) == "Geçersiz SIP portu"@,
        message_of(ConfigErrorView::InvalidGrpcAddress) == "invalid socket address syntax"@,
        message_of(ConfigErrorView::InvalidHttpAddress) == "invalid socket address syntax"@,
{
    reveal_strlit("ZORUNLU: ");
    assert(message_of(ConfigErrorView::Missing(name)).take(9) == "ZORUNLU: "@);
    assert(message_of(ConfigErrorView::Missing(name)).skip(9) == name);
}

impl ConfigError {
    /// The text that is shown for the error.
    pub fn message(&self) -> (r: String)
        ensures
            r@ == message_of(self@),
    {
        match self {
            ConfigError::InvalidSipPort => "Geçersiz SIP portu".to_owned(),
            ConfigError::InvalidGrpcAddress => "invalid socket address syntax".to_owned(),
            ConfigError::InvalidHttpAddress => "invalid socket address syntax".to_owned(),
            ConfigError::Missing(name) => {
                let mut text = "ZORUNLU: ".to_owned();
                text.append(name.as_str());
                text
            },
        }
    }
}

/// The configuration. Listening addresses are kept as text.
#[derive(Debug, PartialEq, Eq)]
pub struct AppConfig {
    pub grpc_listen_addr: String,
    pub http_listen_addr: String,
    pub sip_bind_ip: String,
    pub sip_port: u16,
    pub media_service_url: String,
    pub proxy_service_url: String,
    pub registrar_service_url: String,
    pub user_service_url: String,
    pub dialplan_service_url: String,
    pub rabbitmq_url: String,
    pub redis_url: String,
    pub proxy_sip_addr: String,
    pub sbc_sip_addr: String,
    pub sbc_public_ip: String,
    /// The address that the service gives to its peers: that of the session border controller.
    pub public_ip: String,
    /// The SIP port that goes with it.
    pub public_sip_port: u16,
    pub sip_realm: String,
    pub env: String,
    pub rust_log: String,
    pub service_version: String,
    pub cert_path: String,
    pub key_path: String,
    pub ca_path: String,
}

pub struct AppConfigView {
    pub grpc_listen_addr: Seq<char>,
    pub http_listen_addr: Seq<char>,
    pub sip_bind_ip: Seq<char>,
    pub sip_port: u16,
    pub media_service_url: Seq<char>,
    pub proxy_service_url: Seq<char>,
    pub registrar_service_url: Seq<char>,
    pub user_service_url: Seq<char>,
    pub dialplan_service_url: Seq<char>,
    pub rabbitmq_url: Seq<char>,
    pub redis_url: Seq<char>,
    pub proxy_sip_addr: Seq<char>,
    pub sbc_sip_addr: Seq<char>,
    pub sbc_public_ip: Seq<char>,
    pub public_ip: Seq<char>,
    pub public_sip_port: u16,
    pub sip_realm: Seq<char>,
    pub env: Seq<char>,
    pub rust_log: Seq<char>,
    pub service_version: Seq<char>,
    pub cert_path: Seq<char>,
    pub key_path: Seq<char>,
    pub ca_path: Seq<char>,
}

impl View for AppConfig {
    type V = AppConfigView;

    open spec fn view(&self) -> AppConfigView {
        AppConfigView {
            grpc_listen_addr: self.grpc_listen_addr@,
            http_listen_addr: self.http_listen_addr@,
            sip_bind_ip: self.sip_bind_ip@,
            sip_port: self.sip_port,
            media_service_url: self.media_service_url@,
            proxy_service_url: self.proxy_service_url@,
            registrar_service_url: self.registrar_service_url@,
            user_service_url: self.user_service_url@,
            dialplan_service_url: self.dialplan_service_url@,
            rabbitmq_url: self.rabbitmq_url@,
            redis_url: self.redis_url@,
            proxy_sip_addr: self.proxy_sip_addr@,
            sbc_sip_addr: self.sbc_sip_addr@,
            sbc_public_ip: self.sbc_public_ip@,
            public_ip: self.public_ip@,
            public_sip_port: self.public_sip_port,
            sip_realm: self.sip_realm@,
            env: self.env@,
            rust_log: self.rust_log@,
            service_version: self.service_version@,
            cert_path: self.cert_path@,
            key_path: self.key_path@,
            ca_path: self.ca_path@,
        }
    }
}

impl Clone for AppConfig {
    fn clone(&self) -> (r: Self)
        ensures
            r@ == self@,
    {
        AppConfig {
            grpc_listen_addr: self.grpc_listen_addr.clone(),
            http_listen_addr: self.http_listen_addr.clone(),
            sip_bind_ip: self.sip_bind_ip.clone(),
            sip_port: self.sip_port,
            media_service_url: self.media_service_url.clone(),
            proxy_service_url: self.proxy_service_url.clone(),
            registrar_service_url: self.registrar_service_url.clone(),
            user_service_url: self.user_service_url.clone(),
            dialplan_service_url: self.dialplan_service_url.clone(),
            rabbitmq_url: self.rabbitmq_url.clone(),
            redis_url: self.redis_url.clone(),
            proxy_sip_addr: self.proxy_sip_addr.clone(),
            sbc_sip_addr: self.sbc_sip_addr.clone(),
            sbc_public_ip: self.sbc_public_ip.clone(),
            public_ip: self.public_ip.clone(),
            public_sip_port: self.public_sip_port,
            sip_realm: self.sip_realm.clone(),
            env: self.env.clone(),
            rust_log: self.rust_log.clone(),
            service_version: self.service_version.clone(),
            cert_path: self.cert_path.clone(),
            key_path: self.key_path.clone(),
            ca_path: self.ca_path.clone(),
        }
    }
}

/// The port on which SIP is served, as it is written in the environment.
pub open spec fn sip_port_text(env: Seq<(String, String)>) -> Seq<char> {
    env_or(env, "B2BUA_SERVICE_SIP_PORT"@, "13084"@)
}

/// The port on which gRPC is served, as it is written in the environment.
pub open spec fn grpc_port_text(env: Seq<(String, String)>) -> Seq<char> {
    env_or(env, "B2BUA_SERVICE_GRPC_PORT"@, "13081"@)
}

/// The port on which HTTP is served, as it is written in the environment.
pub open spec fn http_port_text(env: Seq<(String, String)>) -> Seq<char> {
    env_or(env, "B2BUA_SERVICE_HTTP_PORT"@, "13080"@)
}

/// The address of every interface, at a port.
pub open spec fn listen_text(port: Seq<char>) -> Seq<char> {
    "[::]:"@ + port
}

/// The variables that must be set, in the order in which they are asked for.
pub open spec fn required_names() -> Seq<Seq<char>> {
    seq![
        "SBC_SERVICE_SIP_TARGET"@,
        "SBC_SERVICE_PUBLIC_IP"@,
        "MEDIA_SERVICE_TARGET_GRPC_URL"@,
        "REGISTRAR_SERVICE_TARGET_GRPC_URL"@,
        "DIALPLAN_SERVICE_TARGET_GRPC_URL"@,
        "RABBITMQ_URL"@,
        "REDIS_URL"@,
        "B2BUA_SERVICE_CERT_PATH"@,
        "B2BUA_SERVICE_KEY_PATH"@,
        "GRPC_TLS_CA_PATH"@,
    ]
}

/// The first of `names` that is not set.
pub open spec fn first_missing(
    env: Seq<(String, String)>,
    names: Seq<Seq<char>>,
) -> Option<Seq<char>>
    decreases names.len(),
{
    if names.len() == 0 {
        None
    } else if env_value(env, names.first()) is None {
        Some(names.first())
    } else {
        first_missing(env, names.drop_first())
    }
}

/// The configuration that an environment gives, its required variables all set.
pub open spec fn config_of(env: Seq<(String, String)>) -> AppConfigView {
    AppConfigView {
        grpc_listen_addr: listen_text(grpc_port_text(env)),
        http_listen_addr: listen_text(http_port_text(env)),
        sip_bind_ip: "0.0.0.0"@,
        sip_port: u16_of(sip_port_text(env))->0,
        media_service_url: env_value(env, "MEDIA_SERVICE_TARGET_GRPC_URL"@)->0,
        proxy_service_url: env_or(env, "PROXY_SERVICE_TARGET_GRPC_URL"@, ""@),
        registrar_service_url: env_value(env, "REGISTRAR_SERVICE_TARGET_GRPC_URL"@)->0,
        user_service_url: env_or(env, "USER_SERVICE_TARGET_GRPC_URL"@, ""@),
        dialplan_service_url: env_value(env, "DIALPLAN_SERVICE_TARGET_GRPC_URL"@)->0,
        rabbitmq_url: env_value(env, "RABBITMQ_URL"@)->0,
        redis_url: env_value(env, "REDIS_URL"@)->0,
        proxy_sip_addr: env_or(env, "PROXY_SERVICE_SIP_TARGET"@, "proxy-service:13074"@),
        sbc_sip_addr: env_value(env, "SBC_SERVICE_SIP_TARGET"@)->0,
        sbc_public_ip: env_value(env, "SBC_SERVICE_PUBLIC_IP"@)->0,
        public_ip: env_value(env, "SBC_SERVICE_PUBLIC_IP"@)->0,
        public_sip_port: u16_of(sip_port_text(env))->0,
        sip_realm: env_or(env, "SIP_SIGNALING_SERVICE_REALM"@, "sentiric_demo"@),
        env: env_or(env, "ENV"@, "production"@),
        rust_log: env_or(env, "RUST_LOG"@, "info"@),
        service_version: env_or(env, "SERVICE_VERSION"@, "1.4.3"@),
        cert_path: env_value(env, "B2BUA_SERVICE_CERT_PATH"@)->0,
        key_path: env_value(env, "B2BUA_SERVICE_KEY_PATH"@)->0,
        ca_path: env_value(env, "GRPC_TLS_CA_PATH"@)->0,
    }
}

/// What reading the configuration comes to. A listening address is a socket address exactly where
/// its port is one.
pub open spec fn loaded(env: Seq<(String, String)>) -> Result<AppConfigView, ConfigErrorView> {
    if u16_of(sip_port_text(env)) is None {
        Err(ConfigErrorView::InvalidSipPort)
    } else if port_of(grpc_port_text(env)) is None {
        Err(ConfigErrorView::InvalidGrpcAddress)
    } else if port_of(http_port_text(env)) is None {
        Err(ConfigErrorView::InvalidHttpAddress)
    } else {
        match first_missing(env, required_names()) {
            Some(name) => Err(ConfigErrorView::Missing(name)),
            None => Ok(config_of(env)),
        }
    }
}

pub open spec fn config_view(r: Result<AppConfig, ConfigError>) -> Result<
    AppConfigView,
    ConfigErrorView,
> {
    match r {
        Ok(config) => Ok(config@),
        Err(error) => Err(error@),
    }
}

/// Fails with the first required variable that is not set.
fn check_required(env: &Environment) -> (r: Result<(), ConfigError>)
    ensures
        match r {
            Ok(_) => first_missing(env@, required_names()) is None,
            Err(error) => first_missing(env@, required_names()) is Some && error@
                == ConfigErrorView::Missing(first_missing(env@, required_names())->0),
        },
{
    let names: Vec<&str> = vec![
        "SBC_SERVICE_SIP_TARGET",
        "SBC_SERVICE_PUBLIC_IP",
        "MEDIA_SERVICE_TARGET_GRPC_URL",
        "REGISTRAR_SERVICE_TARGET_GRPC_URL",
        "DIALPLAN_SERVICE_TARGET_GRPC_URL",
        "RABBITMQ_URL",
        "REDIS_URL",
        "B2BUA_SERVICE_CERT_PATH",
        "B2BUA_SERVICE_KEY_PATH",
        "GRPC_TLS_CA_PATH",
    ];
    let mut i: usize = 0;
    assert(required_names().skip(0) == required_names());
    while i < names.len()
        invariant
            i <= names.len(),
            names.len() == required_names().len(),
            forall|j: int| 0 <= j < names.len() ==> #[trigger] names@[j]@ == required_names()[j],
            first_missing(env@, required_names()) == first_missing(
                env@,
                required_names().skip(i as int),
            ),
        decreases names.len() - i,
    {
        assert(required_names().skip(i as int).first() == names@[i as int]@);
        assert(required_names().skip(i as int).drop_first() == required_names().skip(i + 1));
        if lookup(env, names[i]).is_none() {
            return Err(ConfigError::Missing(names[i].to_owned()));
        }
        i = i + 1;
    }
    Ok(())
}

/// No name is missing exactly where each of them is set.
proof fn lemma_first_missing(env: Seq<(String, String)>, names: Seq<Seq<char>>)
    ensures
        first_missing(env, names) is None <==> forall|i: int|
            0 <= i < names.len() ==> env_value(env, #[trigger] names[i]) is Some,
    decreases names.len(),
{
    if names.len() > 0 {
        lemma_first_missing(env, names.drop_first());
        assert(forall|i: int|
            0 <= i < names.len() - 1 ==> #[trigger] names.drop_first()[i] == names[i + 1]);
        assert forall|i: int| 0 < i < names.len() implies names.drop_first()[i - 1]
            == #[trigger] names[i] by {}
        assert(names[0] == names.first());
    }
}

/// The configuration is read exactly where the three ports are ports and every required variable is
/// set.
pub proof fn loads_when_complete(env: Seq<(String, String)>)
    ensures
        loaded(env) is Ok <==> {
            &&& u16_of(sip_port_text(env)) is Some
            &&& port_of(grpc_port_text(env)) is Some
            &&& port_of(http_port_text(env)) is Some
            &&& forall|i: int|
                0 <= i < required_names().len() ==> env_value(
                    env,
                    #[trigger] required_names()[i],
                ) is Some
        },
{
    lemma_first_missing(env, required_names());
}

/// The service presents itself at the address of the session border controller.
pub proof fn public_address_is_that_of_the_border(env: Seq<(String, String)>)
    ensures
        loaded(env) matches Ok(config) ==> config.public_ip == config.sbc_public_ip,
{
}

/// The address of every interface, at a port.
fn listen_address(port: &str) -> (r: String)
    ensures
        r@ == listen_text(port@),
{
    let mut text = "[::]:".to_owned();
    text.append(port);
    text
}

impl AppConfig {
    /// The address on which SIP is served.
    pub fn sip_address(&self) -> (r: String)
        ensures
            r@ == socket_text(self@.sip_bind_ip, self@.sip_port as nat),
    {
        format_socket(self.sip_bind_ip.as_str(), self.sip_port as u32)
    }

    /// Reads the configuration.
    pub fn load_from_env(env: &Environment) -> (r: Result<AppConfig, ConfigError>)
        ensures
            config_view(r) == loaded(env@),
    {
        let port_text = lookup_or(env, "B2BUA_SERVICE_SIP_PORT", "13084");
        let sip_port: u16 = match parse_u16(&chars_of(port_text.as_str())) {
            Some(port) => port,
            None => return Err(ConfigError::InvalidSipPort),
        };
        let grpc_port = lookup_or(env, "B2BUA_SERVICE_GRPC_PORT", "13081");
        if parse_port(&chars_of(grpc_port.as_str())).is_none() {
            return Err(ConfigError::InvalidGrpcAddress);
        }
        let http_port = lookup_or(env, "B2BUA_SERVICE_HTTP_PORT", "13080");
        if parse_port(&chars_of(http_port.as_str())).is_none() {
            return Err(ConfigError::InvalidHttpAddress);
        }
        match check_required(env) {
            Ok(_) => {},
            Err(error) => return Err(error),
        }
        proof {
            lemma_first_missing(env@, required_names());
            assert(env_value(env@, required_names()[0]) is Some);
            assert(env_value(env@, required_names()[1]) is Some);
            assert(env_value(env@, required_names()[2]) is Some);
            assert(env_value(env@, required_names()[3]) is Some);
            assert(env_value(env@, required_names()[4]) is Some);
            assert(env_value(env@, required_names()[5]) is Some);
            assert(env_value(env@, required_names()[6]) is Some);
            assert(env_value(env@, required_names()[7]) is Some);
            assert(env_value(env@, required_names()[8]) is Some);
            assert(env_value(env@, required_names()[9]) is Some);
        }
        Ok(
            AppConfig {
                grpc_listen_addr: listen_address(grpc_port.as_str()),
                http_listen_addr: listen_address(http_port.as_str()),
                sip_bind_ip: "0.0.0.0".to_owned(),
                sip_port: sip_port,
                media_service_url: lookup_or(env, "MEDIA_SERVICE_TARGET_GRPC_URL", ""),
                proxy_service_url: lookup_or(env, "PROXY_SERVICE_TARGET_GRPC_URL", ""),
                registrar_service_url: lookup_or(env, "REGISTRAR_SERVICE_TARGET_GRPC_URL", ""),
                user_service_url: lookup_or(env, "USER_SERVICE_TARGET_GRPC_URL", ""),
                dialplan_service_url: lookup_or(env, "DIALPLAN_SERVICE_TARGET_GRPC_URL", ""),
                rabbitmq_url: lookup_or(env, "RABBITMQ_URL", ""),
                redis_url: lookup_or(env, "REDIS_URL", ""),
                proxy_sip_addr: lookup_or(env, "PROXY_SERVICE_SIP_TARGET", "proxy-service:13074"),
                sbc_sip_addr: lookup_or(env, "SBC_SERVICE_SIP_TARGET", ""),
                sbc_public_ip: lookup_or(env, "SBC_SERVICE_PUBLIC_IP", ""),
                public_ip: lookup_or(env, "SBC_SERVICE_PUBLIC_IP", ""),
                public_sip_port: sip_port,
                sip_realm: lookup_or(env, "SIP_SIGNALING_SERVICE_REALM", "sentiric_demo"),
                env: lookup_or(env, "ENV", "production"),
                rust_log: lookup_or(env, "RUST_LOG", "info"),
                service_version: lookup_or(env, "SERVICE_VERSION", "1.4.3"),
                cert_path: lookup_or(env, "B2BUA_SERVICE_CERT_PATH", ""),
                key_path: lookup_or(env, "B2BUA_SERVICE_KEY_PATH", ""),
                ca_path: lookup_or(env, "GRPC_TLS_CA_PATH", ""),
            },
        )
    }
}

/// The value of a variable is that of the first entry with its name, whole; a variable without an
/// entry has none, and its default stands in for it.
pub proof fn first_entry_of_a_name_counts(
    env: Seq<(String, String)>,
    name: Seq<char>,
    i: int,
    default: Seq<char>,
)
    requires
        0 <= i <= env.len(),
        forall|j: int| 0 <= j < i ==> (#[trigger] env[j]).0@ != name,
        i < env.len() ==> env[i].0@ == name,
    ensures
        i < env.len() ==> env_value(env, name) == Some(env[i].1@) && env_or(env, name, default)
            == env[i].1@,
        i == env.len() ==> env_value(env, name) is None && env_or(env, name, default) == default,
    decreases i,
{
    if i > 0 {
        let rest = env.drop_first();
        assert(env.first() == env[0]);
        assert forall|j: int| 0 <= j < i - 1 implies (#[trigger] rest[j]).0@ != name by {
            assert(rest[j] == env[j + 1]);
        }
        first_entry_of_a_name_counts(rest, name, i - 1, default);
    }
}

/// `text` is the value of the variable, or the default where it is not set.
pub open spec fn set_to(
    env: Seq<(String, String)>,
    name: Seq<char>,
    default: Seq<char>,
    text: Seq<char>,
) -> bool {
    env_value(env, name) == Some(text) || (env_value(env, name) is None && text == default)
}

/// Every field of a configuration that is read is the value of its own variable, or its default; the
/// ports are those that the variables write, and the service listens on every interface.
pub proof fn each_field_is_read_of_its_variable(env: Seq<(String, String)>)
    requires
        loaded(env) is Ok,
    ensures
        ({
            let c = loaded(env)->Ok_0;
            &&& env_value(env, "SBC_SERVICE_SIP_TARGET"@) == Some(c.sbc_sip_addr)
            &&& env_value(env, "SBC_SERVICE_PUBLIC_IP"@) == Some(c.sbc_public_ip)
            &&& env_value(env, "MEDIA_SERVICE_TARGET_GRPC_URL"@) == Some(c.media_service_url)
            &&& env_value(env, "REGISTRAR_SERVICE_TARGET_GRPC_URL"@) == Some(c.registrar_service_url)
            &&& env_value(env, "DIALPLAN_SERVICE_TARGET_GRPC_URL"@) == Some(c.dialplan_service_url)
            &&& env_value(env, "RABBITMQ_URL"@) == Some(c.rabbitmq_url)
            &&& env_value(env, "REDIS_URL"@) == Some(c.redis_url)
            &&& env_value(env, "B2BUA_SERVICE_CERT_PATH"@) == Some(c.cert_path)
            &&& env_value(env, "B2BUA_SERVICE_KEY_PATH"@) == Some(c.key_path)
            &&& env_value(env, "GRPC_TLS_CA_PATH"@) == Some(c.ca_path)
            &&& set_to(env, "PROXY_SERVICE_TARGET_GRPC_URL"@, ""@, c.proxy_service_url)
            &&& set_to(env, "USER_SERVICE_TARGET_GRPC_URL"@, ""@, c.user_service_url)
            &&& set_to(env, "PROXY_SERVICE_SIP_TARGET"@, "proxy-service:13074"@, c.proxy_sip_addr)
            &&& set_to(env, "SIP_SIGNALING_SERVICE_REALM"@, "sentiric_demo"@, c.sip_realm)
            &&& set_to(env, "ENV"@, "production"@, c.env)
            &&& set_to(env, "RUST_LOG"@, "info"@, c.rust_log)
            &&& set_to(env, "SERVICE_VERSION"@, "1.4.3"@, c.service_version)
            &&& env_value(env, "SBC_SERVICE_PUBLIC_IP"@) == Some(c.public_ip)
            &&& c.sip_bind_ip == "0.0.0.0"@
            &&& c.grpc_listen_addr.len() >= 5
            &&& c.grpc_listen_addr.take(5) == "[::]:"@
            &&& set_to(
                env,
                "B2BUA_SERVICE_GRPC_PORT"@,
                "13081"@,
                c.grpc_listen_addr.skip(5),
            )
            &&& port_of(c.grpc_listen_addr.skip(5)) is Some
            &&& c.http_listen_addr.len() >= 5
            &&& c.http_listen_addr.take(5) == "[::]:"@
            &&& set_to(
                env,
                "B2BUA_SERVICE_HTTP_PORT"@,
                "13080"@,
                c.http_listen_addr.skip(5),
            )
            &&& port_of(c.http_listen_addr.skip(5)) is Some
            &&& exists|text: Seq<char>|
                {
                    &&& #[trigger] set_to(env, "B2BUA_SERVICE_SIP_PORT"@, "13084"@, text)
                    &&& u16_of(text) == Some(c.sip_port)
                    &&& c.public_sip_port == c.sip_port
                }
        }),
{
    lemma_required(env);
    reveal_strlit("[::]:");
    let c = loaded(env)->Ok_0;
    let grpc = env_or(env, "B2BUA_SERVICE_GRPC_PORT"@, "13081"@);
    let http = env_or(env, "B2BUA_SERVICE_HTTP_PORT"@, "13080"@);
    assert(c.grpc_listen_addr.take(5) == "[::]:"@);
    assert(c.grpc_listen_addr.skip(5) == grpc);
    assert(c.http_listen_addr.take(5) == "[::]:"@);
    assert(c.http_listen_addr.skip(5) == http);
    let text = env_or(env, "B2BUA_SERVICE_SIP_PORT"@, "13084"@);
    assert(set_to(env, "B2BUA_SERVICE_SIP_PORT"@, "13084"@, text));
}

/// Which variables are required.
proof fn lemma_required(env: Seq<(String, String)>)
    ensures
        first_missing(env, required_names()) is None <==> {
            &&& env_value(env, "SBC_SERVICE_SIP_TARGET"@) is Some
            &&& env_value(env, "SBC_SERVICE_PUBLIC_IP"@) is Some
            &&& env_value(env, "MEDIA_SERVICE_TARGET_GRPC_URL"@) is Some
            &&& env_value(env, "REGISTRAR_SERVICE_TARGET_GRPC_URL"@) is Some
            &&& env_value(env, "DIALPLAN_SERVICE_TARGET_GRPC_URL"@) is Some
            &&& env_value(env, "RABBITMQ_URL"@) is Some
            &&& env_value(env, "REDIS_URL"@) is Some
            &&& env_value(env, "B2BUA_SERVICE_CERT_PATH"@) is Some
            &&& env_value(env, "B2BUA_SERVICE_KEY_PATH"@) is Some
            &&& env_value(env, "GRPC_TLS_CA_PATH"@) is Some
        },
{
    lemma_first_missing(env, required_names());
    if first_missing(env, required_names()) is None {
        assert(env_value(env, required_names()[0]) is Some);
        assert(env_value(env, required_names()[1]) is Some);
        assert(env_value(env, required_names()[2]) is Some);
        assert(env_value(env, required_names()[3]) is Some);
        assert(env_value(env, required_names()[4]) is Some);
        assert(env_value(env, required_names()[5]) is Some);
        assert(env_value(env, required_names()[6]) is Some);
        assert(env_value(env, required_names()[7]) is Some);
        assert(env_value(env, required_names()[8]) is Some);
        assert(env_value(env, required_names()[9]) is Some);
    }
}

/// A configuration that is not read fails for a reason that holds, and for the first that does: the
/// SIP port, the gRPC address, the HTTP address, and then the required variables in their order.
pub proof fn first_fault_is_reported(
    env: Seq<(String, String)>,
    sip: Seq<char>,
    grpc: Seq<char>,
    http: Seq<char>,
)
    requires
        set_to(env, "B2BUA_SERVICE_SIP_PORT"@, "13084"@, sip),
        set_to(env, "B2BUA_SERVICE_GRPC_PORT"@, "13081"@, grpc),
        set_to(env, "B2BUA_SERVICE_HTTP_PORT"@, "13080"@, http),
    ensures
        loaded(env) == Err::<AppConfigView, _>(ConfigErrorView::InvalidSipPort) <==> u16_of(sip) is None,
        loaded(env) == Err::<AppConfigView, _>(ConfigErrorView::InvalidGrpcAddress) <==> u16_of(
            sip,
        ) is Some && port_of(grpc) is None,
        loaded(env) == Err::<AppConfigView, _>(ConfigErrorView::InvalidHttpAddress) <==> u16_of(
            sip,
        ) is Some && port_of(grpc) is Some && port_of(http) is None,
        loaded(env) is Ok ==> u16_of(sip) is Some && port_of(grpc) is Some && port_of(http) is Some,
        u16_of(sip) is Some && port_of(grpc) is Some && port_of(http) is Some ==> {
            if env_value(env, "SBC_SERVICE_SIP_TARGET"@) is None {
                loaded(env) == Err::<AppConfigView, _>(
                    ConfigErrorView::Missing("SBC_SERVICE_SIP_TARGET"@),
                )
            } else if env_value(env, "SBC_SERVICE_PUBLIC_IP"@) is None {
                loaded(env) == Err::<AppConfigView, _>(
                    ConfigErrorView::Missing("SBC_SERVICE_PUBLIC_IP"@),
                )
            } else if env_value(env, "MEDIA_SERVICE_TARGET_GRPC_URL"@) is None {
                loaded(env) == Err::<AppConfigView, _>(
                    ConfigErrorView::Missing("MEDIA_SERVICE_TARGET_GRPC_URL"@),
                )
            } else if env_value(env, "REGISTRAR_SERVICE_TARGET_GRPC_URL"@) is None {
                loaded(env) == Err::<AppConfigView, _>(
                    ConfigErrorView::Missing("REGISTRAR_SERVICE_TARGET_GRPC_URL"@),
                )
            } else if env_value(env, "DIALPLAN_SERVICE_TARGET_GRPC_URL"@) is None {
                loaded(env) == Err::<AppConfigView, _>(
                    ConfigErrorView::Missing("DIALPLAN_SERVICE_TARGET_GRPC_URL"@),
                )
            } else if env_value(env, "RABBITMQ_URL"@) is None {
                loaded(env) == Err::<AppConfigView, _>(
                    ConfigErrorView::Missing("RABBITMQ_URL"@),
                )
            } else if env_value(env, "REDIS_URL"@) is None {
                loaded(env) == Err::<AppConfigView, _>(
                    ConfigErrorView::Missing("REDIS_URL"@),
                )
            } else if env_value(env, "B2BUA_SERVICE_CERT_PATH"@) is None {
                loaded(env) == Err::<AppConfigView, _>(
                    ConfigErrorView::Missing("B2BUA_SERVICE_CERT_PATH"@),
                )
            } else if env_value(env, "B2BUA_SERVICE_KEY_PATH"@) is None {
                loaded(env) == Err::<AppConfigView, _>(
                    ConfigErrorView::Missing("B2BUA_SERVICE_KEY_PATH"@),
                )
            } else if env_value(env, "GRPC_TLS_CA_PATH"@) is None {
                loaded(env) == Err::<AppConfigView, _>(
                    ConfigErrorView::Missing("GRPC_TLS_CA_PATH"@),
                )
            } else {
                loaded(env) is Ok
            }
        },
{
    let names = required_names();
    reveal_with_fuel(first_missing, 11);
    assert forall|i: int| 0 <= i < 10 implies #[trigger] names.skip(i).first() == names[i] by {}
    assert forall|i: int| 0 <= i < 10 implies #[trigger] names.skip(i).drop_first() == names.skip(
        i + 1,
    ) by {}
    assert(names.skip(0) == names);
    assert(names.skip(0).first() == names[0] && names.skip(0).drop_first() == names.skip(1));
    assert(names.skip(1).first() == names[1] && names.skip(1).drop_first() == names.skip(2));
    assert(names.skip(2).first() == names[2] && names.skip(2).drop_first() == names.skip(3));
    assert(names.skip(3).first() == names[3] && names.skip(3).drop_first() == names.skip(4));
    assert(names.skip(4).first() == names[4] && names.skip(4).drop_first() == names.skip(5));
    assert(names.skip(5).first() == names[5] && names.skip(5).drop_first() == names.skip(6));
    assert(names.skip(6).first() == names[6] && names.skip(6).drop_first() == names.skip(7));
    assert(names.skip(7).first() == names[7] && names.skip(7).drop_first() == names.skip(8));
    assert(names.skip(8).first() == names[8] && names.skip(8).drop_first() == names.skip(9));
    assert(names.skip(9).first() == names[9] && names.skip(9).drop_first() == names.skip(10));
    assert(names.skip(10).len() == 0);
}

/// A configuration is seen whole, and so is the reason why there is none.
pub proof fn configuration_is_seen_whole(config: AppConfig, name: String, error: ConfigError)
    ensures
        config@.sip_port == config.sip_port,
        config@.public_sip_port == config.public_sip_port,
        config@.grpc_listen_addr == config.grpc_listen_addr@,
        config@.http_listen_addr == config.http_listen_addr@,
        config@.sip_bind_ip == config.sip_bind_ip@,
        config@.media_service_url == config.media_service_url@,
        config@.proxy_service_url == config.proxy_service_url@,
        config@.registrar_service_url == config.registrar_service_url@,
        config@.user_service_url == config.user_service_url@,
        config@.dialplan_service_url == config.dialplan_service_url@,
        config@.rabbitmq_url == config.rabbitmq_url@,
        config@.redis_url == config.redis_url@,
        config@.proxy_sip_addr == config.proxy_sip_addr@,
        config@.sbc_sip_addr == config.sbc_sip_addr@,
        config@.sbc_public_ip == config.sbc_public_ip@,
        config@.public_ip == config.public_ip@,
        config@.sip_realm == config.sip_realm@,
        config@.env == config.env@,
        config@.rust_log == config.rust_log@,
        config@.service_version == config.service_version@,
        config@.cert_path == config.cert_path@,
        config@.key_path == config.key_path@,
        config@.ca_path == config.ca_path@,
        ConfigError::InvalidSipPort@ is InvalidSipPort,
        ConfigError::InvalidGrpcAddress@ is InvalidGrpcAddress,
        ConfigError::InvalidHttpAddress@ is InvalidHttpAddress,
        ConfigError::Missing(name)@ == ConfigErrorView::Missing(name@),
        config_view(Ok(config)) == Ok::<_, ConfigErrorView>(config@),
        config_view(Err(error)) == Err::<AppConfigView, _>(error@),
{
}

} // verus!
