use forza::config::{address_var, default_address, sink_address, ConfigError, MetricsVar};
use forza::metrics::PluginKind;
use forza::runner::{plugin_kinds, startup};

#[test]
fn unset_address_uses_default() {
    assert_eq!(sink_address(MetricsVar::Unset).unwrap(), "tcp://127.0.0.1:1337");
    assert_eq!(default_address(), "tcp://127.0.0.1:1337");
    assert_eq!(address_var(), "METRICS");
}

#[test]
fn explicit_address_is_used_as_it_is() {
    let a = "tcp://10.0.0.5:9000".to_string();
    assert_eq!(sink_address(MetricsVar::Text(a.clone())).unwrap(), a);
}

#[test]
fn address_that_is_not_text_is_fatal() {
    assert_eq!(sink_address(MetricsVar::NotText).unwrap_err(), ConfigError::AddressNotText);
    assert_eq!(startup(MetricsVar::NotText).err(), Some(ConfigError::AddressNotText));
}

#[test]
fn startup_plan() {
    let s = startup(MetricsVar::Unset).ok().unwrap();
    assert_eq!(s.address, "tcp://127.0.0.1:1337");
    assert_eq!(s.marker, "forza.start");
    assert_eq!(
        s.plugins,
        vec![PluginKind::Heartbeat, PluginKind::Memory, PluginKind::LoadAverage, PluginKind::Processes]
    );
    assert_eq!(plugin_kinds(), s.plugins);
    let t = startup(MetricsVar::Text("tcp://h:1".to_string())).ok().unwrap();
    assert_eq!(t.address, "tcp://h:1");
}
