// The builders derived for the structs of the builder scenarios, checked on
// the text that the generator produces for each of them.

use typestate_builder::generate::derive_from_model;
use typestate_builder::model::{
    ArgumentsModel, AttrArgs, AttributeModel, BoundKind, BoundModel, DataModel, DeriveInputModel,
    FieldModel, FieldsModel, GenericArgModel, SegmentModel, TypeModel,
};

fn segment(ident: &str, args: Vec<TypeModel>) -> SegmentModel {
    SegmentModel {
        ident: ident.to_string(),
        arguments: if args.is_empty() {
            ArgumentsModel::Bare
        } else {
            ArgumentsModel::AngleBracketed(args.into_iter().map(GenericArgModel::Type).collect())
        },
    }
}

fn path(ident: &str, args: Vec<TypeModel>) -> TypeModel {
    TypeModel::Path(vec![segment(ident, args)])
}

fn field(name: &str, ty_text: &str, ty: TypeModel) -> FieldModel {
    FieldModel { name: name.to_string(), ty_text: ty_text.to_string(), ty, attrs: vec![] }
}

fn plain(name: &str, ty: &str) -> FieldModel {
    field(name, ty, path(ty, vec![]))
}

fn incomplete(mut f: FieldModel) -> FieldModel {
    f.attrs.push(AttributeModel { path_ident: Some("incomplete".to_string()), args: AttrArgs::Absent });
    f
}

fn with_default(mut f: FieldModel, tokens: &str) -> FieldModel {
    f.attrs.push(AttributeModel {
        path_ident: Some("default".to_string()),
        args: AttrArgs::Expression(tokens.to_string()),
    });
    f
}

fn bound(text: &str) -> BoundModel {
    BoundModel { kind: BoundKind::Trait, text: text.to_string() }
}

fn dyn_field(name: &str, wrapper: &str, bounds: &[&str]) -> FieldModel {
    let dyn_ty = TypeModel::TraitObject(bounds.iter().map(|b| bound(b)).collect());
    let text = format!("{}<dyn {}>", wrapper, bounds.join(" + "));
    field(name, &text, path(wrapper, vec![dyn_ty]))
}

fn derive(name: &str, fields: Vec<FieldModel>) -> String {
    let input = DeriveInputModel {
        ident: name.to_string(),
        data: DataModel::Struct(FieldsModel::Named(fields)),
    };
    let text = derive_from_model(&input).unwrap();
    assert!(syn::parse_file(&text).is_ok(), "not Rust: {}", text);
    text
}

fn server_config() -> String {
    derive("ServerConfig", vec![plain("host", "String"), plain("port", "u16"), plain("workers", "usize")])
}

fn database_config() -> String {
    derive(
        "DatabaseConfig",
        vec![plain("host", "String"), plain("port", "u16"), incomplete(plain("password", "String"))],
    )
}

fn app_config() -> String {
    derive(
        "AppConfig",
        vec![
            plain("name", "String"),
            plain("version", "String"),
            incomplete(plain("api_key", "String")),
            incomplete(plain("secret_token", "String")),
        ],
    )
}

#[test]
fn test_basic_builder() {
    let text = server_config();
    assert_eq!(
        text,
        "struct ServerConfigBuilder<Host, Port, Workers> { host: Host, port: Port, workers: Workers }  \
         impl ServerConfigBuilder<(), (), ()> { pub fn new() -> Self { Self { host: (), port: (), workers: () } } } \
         impl<Host, Port, Workers> ServerConfigBuilder<Host, Port, Workers> { \
         pub fn with_host(self, host: String) -> ServerConfigBuilder<String, Port, Workers> { ServerConfigBuilder { host, port: self.port, workers: self.workers } } \
         pub fn with_port(self, port: u16) -> ServerConfigBuilder<Host, u16, Workers> { ServerConfigBuilder { port, host: self.host, workers: self.workers } } \
         pub fn with_workers(self, workers: usize) -> ServerConfigBuilder<Host, Port, usize> { ServerConfigBuilder { workers, host: self.host, port: self.port } } } \
         impl ServerConfigBuilder<String, u16, usize> { pub fn build(self) -> ServerConfig { ServerConfig { host: self.host, port: self.port, workers: self.workers } } }"
    );
}

fn has(text: &str, piece: &str) {
    assert!(text.contains(piece), "missing `{}` in:\n{}", piece, text);
}

#[test]
fn test_builder_order_independence() {
    // Each setter is defined for every state and changes only its own
    // parameter, so any order of the three calls reaches the build impl.
    let text = server_config();
    has(&text, "impl<Host, Port, Workers> ServerConfigBuilder<Host, Port, Workers> {");
    has(&text, "pub fn with_workers(self, workers: usize) -> ServerConfigBuilder<Host, Port, usize>");
    has(&text, "pub fn with_port(self, port: u16) -> ServerConfigBuilder<Host, u16, Workers>");
    has(&text, "pub fn with_host(self, host: String) -> ServerConfigBuilder<String, Port, Workers>");
    has(&text, "impl ServerConfigBuilder<String, u16, usize> { pub fn build(self) -> ServerConfig {");
    has(&text, "ServerConfig { host: self.host, port: self.port, workers: self.workers }");
}

#[test]
fn test_incomplete_single_field() {
    let text = database_config();
    has(&text, "pub type DatabaseConfigIncomplete = DatabaseConfigBuilder<String, u16, ()>;");
    has(&text, "pub fn with_password(self, password: String) -> DatabaseConfigBuilder<Host, Port, String>");
    has(&text, "impl DatabaseConfigBuilder<String, u16, String> { pub fn build(self) -> DatabaseConfig {");
    has(&text, "password: self.password");
}

#[test]
fn test_typestate_progression() {
    let text = database_config();
    has(&text, "impl DatabaseConfigBuilder<(), (), ()> { pub fn new() -> Self { Self { host: (), port: (), password: () } } }");
    has(&text, "pub fn with_host(self, host: String) -> DatabaseConfigBuilder<String, Port, Password>");
    has(&text, "pub fn with_port(self, port: u16) -> DatabaseConfigBuilder<Host, u16, Password>");
    has(&text, "pub type DatabaseConfigIncomplete = DatabaseConfigBuilder<String, u16, ()>;");
}

#[test]
fn test_incomplete_multiple_fields() {
    let text = app_config();
    has(&text, "pub type AppConfigIncomplete = AppConfigBuilder<String, String, (), ()>;");
    has(&text, "impl AppConfigBuilder<String, String, String, String> { pub fn build(self) -> AppConfig {");
    has(&text, "api_key: self.api_key, secret_token: self.secret_token");
}

#[test]
fn test_partial_incomplete() {
    let text = app_config();
    has(&text, "pub fn with_api_key(self, api_key: String) -> AppConfigBuilder<Name, Version, String, SecretToken>");
    has(&text, "pub fn with_secret_token(self, secret_token: String) -> AppConfigBuilder<Name, Version, ApiKey, String>");
    has(&text, "AppConfig { name: self.name, version: self.version, api_key: self.api_key, secret_token: self.secret_token }");
}

fn http_client() -> String {
    derive("HttpClient", vec![plain("timeout", "u64"), incomplete(plain("auth_token", "String"))])
}

fn logger() -> String {
    derive("Logger", vec![plain("level", "String"), plain("output", "String")])
}

#[test]
fn test_dynamic_naming() {
    let client = http_client();
    let logger = logger();
    has(&client, "struct HttpClientBuilder<Timeout, AuthToken> { timeout: Timeout, auth_token: AuthToken }");
    has(&client, "pub fn build(self) -> HttpClient { HttpClient { timeout: self.timeout, auth_token: self.auth_token } }");
    has(&logger, "struct LoggerBuilder<Level, Output> { level: Level, output: Output }");
    has(&logger, "pub fn build(self) -> Logger { Logger { level: self.level, output: self.output } }");
}

#[test]
fn test_incomplete_type_alias_naming() {
    has(&http_client(), "pub type HttpClientIncomplete = HttpClientBuilder<u64, ()>;");
    assert!(!logger().contains("Incomplete"));
}

#[test]
fn test_complex_field_types() {
    let text = derive(
        "CacheConfig",
        vec![
            plain("max_size", "usize"),
            plain("ttl_seconds", "u64"),
            field("tags", "Vec<String>", path("Vec", vec![path("String", vec![])])),
            incomplete(field("redis_url", "Option<String>", path("Option", vec![path("String", vec![])]))),
        ],
    );
    has(&text, "pub fn with_tags(self, tags: Vec<String>) -> CacheConfigBuilder<MaxSize, TtlSeconds, Vec<String>, RedisUrl>");
    has(&text, "pub fn with_redis_url(self, redis_url: Option<String>) -> CacheConfigBuilder<MaxSize, TtlSeconds, Tags, Option<String>>");
    has(&text, "impl CacheConfigBuilder<usize, u64, Vec<String>, Option<String>> { pub fn build(self) -> CacheConfig {");
    has(&text, "pub type CacheConfigIncomplete = CacheConfigBuilder<usize, u64, Vec<String>, ()>;");
}

#[test]
fn test_arc_dyn_trait_auto_wrap() {
    let text = derive("App", vec![plain("name", "String"), dyn_field("logger", "Arc", &["LoggerTrait"])]);
    has(&text, "pub fn with_logger(self, logger: impl LoggerTrait + 'static) -> AppBuilder<Name, Arc<dyn LoggerTrait>> { AppBuilder { logger: std::sync::Arc::new(logger), name: self.name } }");
    has(&text, "impl AppBuilder<String, Arc<dyn LoggerTrait>> { pub fn build(self) -> App { App { name: self.name, logger: self.logger } } }");
}

#[test]
fn test_box_dyn_trait_auto_wrap() {
    let text = derive("Pipeline", vec![plain("name", "String"), dyn_field("processor", "Box", &["ProcessorTrait"])]);
    has(&text, "pub fn with_processor(self, processor: impl ProcessorTrait + 'static) -> PipelineBuilder<Name, Box<dyn ProcessorTrait>> { PipelineBuilder { processor: Box::new(processor), name: self.name } }");
    has(&text, "pub fn with_name(self, name: String) -> PipelineBuilder<String, Processor> { PipelineBuilder { name, processor: self.processor } }");
}

#[test]
fn test_multi_bound_auto_wrap() {
    let text = derive("Server", vec![plain("port", "u16"), dyn_field("handler", "Arc", &["HandlerTrait", "Send", "Sync"])]);
    has(&text, "pub fn with_handler(self, handler: impl HandlerTrait + Send + Sync + 'static) -> ServerBuilder<Port, Arc<dyn HandlerTrait + Send + Sync>>");
    has(&text, "handler: std::sync::Arc::new(handler), port: self.port");
    has(&text, "pub fn with_port(self, port: u16) -> ServerBuilder<u16, Handler>");
}

#[test]
fn test_mixed_wrapper_and_regular_fields() {
    let text = derive(
        "Service",
        vec![
            plain("name", "String"),
            plain("port", "u16"),
            dyn_field("logger", "Arc", &["LoggerTrait"]),
            plain("max_connections", "usize"),
        ],
    );
    has(&text, "pub fn with_name(self, name: String) -> ServiceBuilder<String, Port, Logger, MaxConnections>");
    has(&text, "pub fn with_port(self, port: u16) -> ServiceBuilder<Name, u16, Logger, MaxConnections>");
    has(&text, "pub fn with_logger(self, logger: impl LoggerTrait + 'static) -> ServiceBuilder<Name, Port, Arc<dyn LoggerTrait>, MaxConnections>");
    has(&text, "pub fn with_max_connections(self, max_connections: usize) -> ServiceBuilder<Name, Port, Logger, usize>");
    has(&text, "Service { name: self.name, port: self.port, logger: self.logger, max_connections: self.max_connections }");
}

#[test]
fn test_wrapper_with_incomplete() {
    let text = derive("Worker", vec![plain("id", "String"), incomplete(dyn_field("processor", "Arc", &["ProcessorTrait"]))]);
    has(&text, "pub type WorkerIncomplete = WorkerBuilder<String, ()>;");
    has(&text, "pub fn with_processor(self, processor: impl ProcessorTrait + 'static) -> WorkerBuilder<Id, Arc<dyn ProcessorTrait>> { WorkerBuilder { processor: std::sync::Arc::new(processor), id: self.id } }");
    has(&text, "Worker { id: self.id, processor: self.processor }");
}

fn web_server_config() -> String {
    derive(
        "WebServerConfig",
        vec![plain("host", "String"), plain("port", "u16"), with_default(plain("workers", "usize"), "4")],
    )
}

#[test]
fn test_basic_default_field() {
    let text = web_server_config();
    has(&text, "struct WebServerConfigBuilder<Host, Port> { host: Host, port: Port, workers: usize }");
    has(&text, "impl WebServerConfigBuilder<(), ()> { pub fn new() -> Self { Self { host: (), port: (), workers: 4 } } }");
    has(&text, "impl WebServerConfigBuilder<String, u16> { pub fn build(self) -> WebServerConfig { WebServerConfig { host: self.host, port: self.port, workers: self.workers } } }");
}

#[test]
fn test_override_default_field() {
    has(&web_server_config(), "pub fn with_workers(mut self, workers: usize) -> Self { self.workers = workers; self } ");
}

#[test]
fn test_default_field_chaining() {
    let text = web_server_config();
    let block = text.find("impl<Host, Port> WebServerConfigBuilder<Host, Port> {").unwrap();
    let setter = text.find("pub fn with_workers(mut self, workers: usize) -> Self").unwrap();
    let build = text.find("impl WebServerConfigBuilder<String, u16>").unwrap();
    assert!(block < setter && setter < build);
    has(&text, "pub fn with_port(self, port: u16) -> WebServerConfigBuilder<Host, u16> { WebServerConfigBuilder { port, host: self.host, workers: self.workers } }");
}

fn api_config() -> String {
    derive(
        "ApiConfig",
        vec![
            plain("endpoint", "String"),
            with_default(plain("timeout", "u64"), "30"),
            with_default(plain("retries", "u32"), "3"),
            with_default(plain("use_tls", "bool"), "true"),
        ],
    )
}

#[test]
fn test_multiple_defaults() {
    let text = api_config();
    has(&text, "impl ApiConfigBuilder<()> { pub fn new() -> Self { Self { endpoint: (), timeout: 30, retries: 3, use_tls: true } } }");
    has(&text, "impl ApiConfigBuilder<String> { pub fn build(self) -> ApiConfig { ApiConfig { endpoint: self.endpoint, timeout: self.timeout, retries: self.retries, use_tls: self.use_tls } } }");
}

#[test]
fn test_partial_override_defaults() {
    let text = api_config();
    has(&text, "pub fn with_timeout(mut self, timeout: u64) -> Self { self.timeout = timeout; self } ");
    has(&text, "pub fn with_retries(mut self, retries: u32) -> Self { self.retries = retries; self } ");
    has(&text, "use_tls: true");
}

#[test]
fn test_multiple_overrides_order() {
    let text = api_config();
    has(&text, "impl<Endpoint> ApiConfigBuilder<Endpoint> { pub fn with_endpoint(self, endpoint: String) -> ApiConfigBuilder<String> { ApiConfigBuilder { endpoint, timeout: self.timeout, retries: self.retries, use_tls: self.use_tls } } pub fn with_timeout(mut self, timeout: u64) -> Self { self.timeout = timeout; self } ");
    has(&text, "pub fn with_use_tls(mut self, use_tls: bool) -> Self { self.use_tls = use_tls; self } }");
}

fn storage_config() -> String {
    derive(
        "StorageConfig",
        vec![
            plain("path", "String"),
            with_default(field("exclude_patterns", "Vec<String>", path("Vec", vec![path("String", vec![])])), "vec![]"),
            with_default(field("cache_dir", "Option<String>", path("Option", vec![path("String", vec![])])), "None"),
        ],
    )
}

#[test]
fn test_default_complex_types() {
    let text = storage_config();
    has(&text, "Self { path: (), exclude_patterns: vec![], cache_dir: None }");
    has(&text, "struct StorageConfigBuilder<Path> { path: Path, exclude_patterns: Vec<String>, cache_dir: Option<String> }");
}

#[test]
fn test_override_default_complex_types() {
    let text = storage_config();
    has(&text, "pub fn with_exclude_patterns(mut self, exclude_patterns: Vec<String>) -> Self { self.exclude_patterns = exclude_patterns; self } ");
    has(&text, "pub fn with_cache_dir(mut self, cache_dir: Option<String>) -> Self { self.cache_dir = cache_dir; self } ");
}

fn output_config() -> String {
    derive(
        "OutputConfig",
        vec![
            plain("destination", "String"),
            with_default(dyn_field("formatter", "Arc", &["FormatterTrait"]), "Arc::new(DefaultFormatter)"),
        ],
    )
}

#[test]
fn test_default_arc_wrapper() {
    let text = output_config();
    has(&text, "struct OutputConfigBuilder<Destination> { destination: Destination, formatter: Arc<dyn FormatterTrait> }");
    has(&text, "Self { destination: (), formatter: Arc::new(DefaultFormatter) }");
}

#[test]
fn test_override_default_arc_wrapper() {
    has(&output_config(), "pub fn with_formatter(mut self, formatter: impl FormatterTrait + 'static) -> Self { self.formatter = std::sync::Arc::new(formatter); self } ");
}

fn static_str() -> TypeModel {
    TypeModel::Other
}

fn security_config() -> String {
    derive(
        "SecurityConfig",
        vec![
            incomplete(plain("api_key", "String")),
            with_default(field("log_level", "&'static str", static_str()), "\"info\""),
            with_default(plain("verify_ssl", "bool"), "true"),
        ],
    )
}

#[test]
fn test_default_with_incomplete_fields() {
    let text = security_config();
    has(&text, "impl SecurityConfigBuilder<()> { pub fn new() -> Self { Self { api_key: (), log_level: \"info\", verify_ssl: true } } }");
    has(&text, "impl SecurityConfigBuilder<String> { pub fn build(self) -> SecurityConfig { SecurityConfig { api_key: self.api_key, log_level: self.log_level, verify_ssl: self.verify_ssl } } }");
}

#[test]
fn test_incomplete_with_defaults() {
    let text = security_config();
    has(&text, "pub type SecurityConfigIncomplete = SecurityConfigBuilder<()>;");
    has(&text, "pub fn with_api_key(self, api_key: String) -> SecurityConfigBuilder<String>");
}

#[test]
fn test_override_defaults_with_incomplete() {
    let text = security_config();
    has(&text, "pub fn with_log_level(mut self, log_level: &'static str) -> Self { self.log_level = log_level; self } ");
    has(&text, "pub fn with_verify_ssl(mut self, verify_ssl: bool) -> Self { self.verify_ssl = verify_ssl; self } ");
    has(&text, "pub fn with_api_key(self, api_key: String) -> SecurityConfigBuilder<String> { SecurityConfigBuilder { api_key, log_level: self.log_level, verify_ssl: self.verify_ssl } } ");
}

fn theme_config() -> String {
    derive(
        "ThemeConfig",
        vec![
            with_default(field("mode", "&'static str", static_str()), "\"dark\""),
            with_default(plain("font_size", "u8"), "14"),
            with_default(plain("syntax_highlighting", "bool"), "true"),
        ],
    )
}

#[test]
fn test_all_default_fields() {
    let text = theme_config();
    has(&text, "struct ThemeConfigBuilder<> { mode: &'static str, font_size: u8, syntax_highlighting: bool }");
    has(&text, "impl ThemeConfigBuilder<> { pub fn new() -> Self { Self { mode: \"dark\", font_size: 14, syntax_highlighting: true } } }");
    has(&text, "impl ThemeConfigBuilder<> { pub fn build(self) -> ThemeConfig { ThemeConfig { mode: self.mode, font_size: self.font_size, syntax_highlighting: self.syntax_highlighting } } }");
    assert!(!text.contains("Incomplete"));
}

#[test]
fn test_all_defaults_with_overrides() {
    let text = theme_config();
    has(&text, "pub fn with_mode(mut self, mode: &'static str) -> Self { self.mode = mode; self } ");
    has(&text, "pub fn with_font_size(mut self, font_size: u8) -> Self { self.font_size = font_size; self } ");
    has(&text, "syntax_highlighting: true");
}
