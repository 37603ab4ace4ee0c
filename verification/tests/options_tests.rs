use pulsar_cat::cli_options::{
    AuthOpts, CompressionOpt, ConsumerOpts, DisplayOpts, ListOpts, OffsetPosition, OpValidate,
    ProducerOpts,
};
use pulsar_cat::error::PulsarCatError;
use pulsar_cat::list::{format_partition_info, plan_list, ListPlan};

fn producer(key: Option<&str>, enforce_key: bool) -> ProducerOpts {
    ProducerOpts {
        topic: "tenant/ns/topic".to_string(),
        compression: CompressionOpt::NoCompression,
        key: key.map(|k| k.to_string()),
        enforce_key,
        auth: AuthOpts { token: None },
    }
}

#[test]
fn producer_options_accept_key_setups() {
    assert!(producer(None, false).validate().is_ok());
    assert!(producer(Some("="), false).validate().is_ok());
    assert!(producer(Some("="), true).validate().is_ok());
}

#[test]
fn enforcing_key_without_delimiter_is_a_config_error() {
    let e = producer(None, true).validate().unwrap_err();
    assert_eq!(
        e,
        PulsarCatError::Application(
            "Message key is required but not provided, please use --key to set the delimiter."
                .to_string()
        )
    );
}

#[test]
fn consumer_options_always_validate() {
    let opts = ConsumerOpts {
        topic: "t".to_string(),
        offset: Some(OffsetPosition::Beginning),
        exit: true,
        auth: AuthOpts { token: Some("tok".to_string()) },
        display: DisplayOpts { format: None, json: false },
    };
    assert!(opts.validate().is_ok());
}

fn list_opts(topic: Option<&str>, namespace: Option<&str>) -> ListOpts {
    ListOpts {
        auth: AuthOpts { token: None },
        namespace: namespace.map(|s| s.to_string()),
        topic: topic.map(|s| s.to_string()),
    }
}

#[test]
fn list_needs_topic_or_namespace() {
    let e = list_opts(None, None).validate().unwrap_err();
    assert_eq!(
        e,
        PulsarCatError::Application("You must provide either a topic or a namespace.".to_string())
    );
    assert!(list_opts(Some("t"), None).validate().is_ok());
    assert!(list_opts(None, Some("ns")).validate().is_ok());
}

#[test]
fn list_plan_picks_the_single_given_target() {
    assert_eq!(
        plan_list(&list_opts(Some("a/b/c"), None)).unwrap(),
        ListPlan::Partitions("a/b/c".to_string())
    );
    assert_eq!(
        plan_list(&list_opts(None, Some("a/b"))).unwrap(),
        ListPlan::Topics("a/b".to_string())
    );
}

#[test]
fn list_plan_rejects_neither_and_both() {
    assert!(plan_list(&list_opts(None, None)).is_err());
    assert!(plan_list(&list_opts(Some("t"), Some("ns"))).is_err());
}

#[test]
fn partition_info_lines() {
    assert_eq!(format_partition_info("pulsar://h:6650", false), "pulsar://h:6650:");
    assert_eq!(format_partition_info("pulsar://h:6650", true), "pulsar://h:6650:(via proxy)");
}

#[test]
fn error_accessors() {
    let p = PulsarCatError::Pulsar("connection refused".to_string());
    assert!(!p.is_application());
    assert_eq!(p.message(), "connection refused");
    let a = PulsarCatError::Application("bad".to_string());
    assert!(a.is_application());
    assert_eq!(a.message(), "bad");
}
