use bell_casting::compute_pool::{ComputePool, ComputePoolConfig};
use bell_casting::config::{Config, EnvValues};
use bell_casting::api::{ApiResponse, Pagination};

fn no_env() -> EnvValues {
    EnvValues {
        server_port: None,
        metrics_port: None,
        clickhouse_url: None,
        clickhouse_user: None,
        clickhouse_password: None,
        clickhouse_database: None,
        mqtt_host: None,
        mqtt_port: None,
        mqtt_client_id: None,
        mqtt_topic: None,
        mqtt_username: None,
        mqtt_password: None,
    }
}

#[test]
fn test_compute_pool_config() {
    let config = ComputePoolConfig::default();
    assert!(config.max_threads >= 2);
    assert!(config.max_threads <= 8);
    assert_eq!(config.thread_name, "compute-pool");
}

#[test]
fn pool_thread_count_is_clamped() {
    assert_eq!(ComputePoolConfig::thread_count_for(0), 2);
    assert_eq!(ComputePoolConfig::thread_count_for(1), 2);
    assert_eq!(ComputePoolConfig::thread_count_for(2), 2);
    assert_eq!(ComputePoolConfig::thread_count_for(5), 5);
    assert_eq!(ComputePoolConfig::thread_count_for(8), 8);
    assert_eq!(ComputePoolConfig::thread_count_for(64), 8);
    let config = ComputePoolConfig::for_cores(16);
    assert_eq!(config.max_threads, 8);
    assert_eq!(config.stack_size, Some(2 * 1024 * 1024));
}

#[test]
fn pool_keeps_its_configuration() {
    let config = ComputePoolConfig {
        max_threads: 3,
        thread_name: "acoustics".to_string(),
        stack_size: None,
    };
    let pool = ComputePool::with_config(config);
    assert_eq!(pool.config().max_threads, 3);
    assert_eq!(pool.config().thread_name, "acoustics");
    assert_eq!(pool.config().stack_size, None);
    let copy = pool.clone();
    assert_eq!(copy.config().max_threads, 3);
    assert_eq!(copy.config().thread_name, "acoustics");
    let default_pool = ComputePool::new();
    assert!(default_pool.config().max_threads >= 2 && default_pool.config().max_threads <= 8);
    assert_eq!(ComputePool::default().config().thread_name, "compute-pool");
}

#[test]
fn config_defaults_when_nothing_is_set() {
    let config = Config::from_env_values(&no_env());
    assert_eq!(config.server_port, 8080);
    assert_eq!(config.metrics_port, 9090);
    assert_eq!(config.clickhouse_url, "http://localhost:8123");
    assert_eq!(config.clickhouse_user, "default");
    assert_eq!(config.clickhouse_password, "");
    assert_eq!(config.clickhouse_database, "bell_casting");
    assert_eq!(config.mqtt_host, "localhost");
    assert_eq!(config.mqtt_port, 1883);
    assert_eq!(config.mqtt_client_id, "bell_casting_backend");
    assert_eq!(config.mqtt_topic, "bell_casting/alerts");
    assert_eq!(config.mqtt_username, None);
    assert_eq!(config.mqtt_password, None);
}

#[test]
fn config_takes_set_values() {
    let mut values = no_env();
    values.server_port = Some("8000".to_string());
    values.metrics_port = Some("+9100".to_string());
    values.mqtt_port = Some("8883".to_string());
    values.clickhouse_url = Some("http://db:8123".to_string());
    values.clickhouse_password = Some("SECRET-REDACTED".to_string());
    values.mqtt_username = Some("bell".to_string());
    values.mqtt_password = Some("pw".to_string());
    let config = Config::from_env_values(&values);
    assert_eq!(config.server_port, 8000);
    assert_eq!(config.metrics_port, 9100);
    assert_eq!(config.mqtt_port, 8883);
    assert_eq!(config.clickhouse_url, "http://db:8123");
    assert_eq!(config.clickhouse_password, "SECRET-REDACTED");
    assert_eq!(config.mqtt_username, Some("bell".to_string()));
    assert_eq!(config.mqtt_password, Some("pw".to_string()));
}

#[test]
fn config_ports_that_do_not_parse_fall_back() {
    let mut values = no_env();
    values.server_port = Some("eighty".to_string());
    values.metrics_port = Some("70000".to_string());
    values.mqtt_port = Some(" 1884".to_string());
    let config = Config::from_env_values(&values);
    assert_eq!(config.server_port, 8080);
    assert_eq!(config.metrics_port, 9090);
    assert_eq!(config.mqtt_port, 1883);
    values.server_port = Some("".to_string());
    values.metrics_port = Some("-1".to_string());
    values.mqtt_port = Some("65535".to_string());
    let config = Config::from_env_values(&values);
    assert_eq!(config.server_port, 8080);
    assert_eq!(config.metrics_port, 9090);
    assert_eq!(config.mqtt_port, 65535);
}

#[test]
fn api_responses_carry_data_or_error() {
    let ok: ApiResponse<u32> = ApiResponse::ok(7);
    assert!(ok.success);
    assert_eq!(ok.data, Some(7));
    assert_eq!(ok.error, None);
    let failed: ApiResponse<u32> = ApiResponse::err("钟体不存在".to_string());
    assert!(!failed.success);
    assert_eq!(failed.data, None);
    assert_eq!(failed.error, Some("钟体不存在".to_string()));
    let page = Pagination { limit: None };
    assert_eq!(page.limit.unwrap_or(100), 100);
}

#[test]
fn mqtt_credentials_need_both_parts() {
    let mut values = no_env();
    let config = Config::from_env_values(&values);
    assert_eq!(config.mqtt_credentials(), None);
    values.mqtt_username = Some("bell".to_string());
    let config = Config::from_env_values(&values);
    assert_eq!(config.mqtt_credentials(), None);
    values.mqtt_password = Some("pw".to_string());
    let config = Config::from_env_values(&values);
    assert_eq!(config.mqtt_credentials(), Some(("bell".to_string(), "pw".to_string())));
}
