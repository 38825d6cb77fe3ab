use shazamq_operator::config::generate_config_toml;
use shazamq_operator::crd::{
    MirrorConfig, MirrorSource, S3Config, ShazamqClusterSpec, StorageConfig, TieredStorageConfig,
};
use shazamq_operator::text::render_decimal;

const FIXED_HEAD: &str = "[broker]\nhost = \"0.0.0.0\"\nport = 9092\ndata_dir = \"/data/shazamq\"\n\n";
const METRICS: &str = "[metrics]\nenabled = true\nhost = \"0.0.0.0\"\nport = 9090\n\n";

fn source(name: &str, servers: &str, group: &str, topics: &[&str]) -> MirrorSource {
    MirrorSource {
        name: name.to_string(),
        bootstrap_servers: servers.to_string(),
        security_protocol: "PLAINTEXT".to_string(),
        sasl_mechanism: None,
        credentials_secret: None,
        topic_whitelist: topics.iter().map(|t| t.to_string()).collect(),
        topic_blacklist: None,
        consumer_group_id: group.to_string(),
        num_consumers: None,
        exactly_once: None,
    }
}

fn count(haystack: &str, needle: &str) -> usize {
    haystack.matches(needle).count()
}

#[test]
fn bare_spec_gives_the_three_fixed_sections() {
    let spec = ShazamqClusterSpec::with_defaults(3);
    let text = generate_config_toml(&spec);
    assert_eq!(text, format!("{}[storage]\n\n{}", FIXED_HEAD, METRICS));
}

#[test]
fn storage_lines_appear_only_where_set() {
    let mut spec = ShazamqClusterSpec::with_defaults(1);
    spec.storage = Some(StorageConfig {
        segment_bytes: Some(1073741824),
        retention_hours: None,
        retention_bytes: Some(5),
    });
    assert_eq!(
        generate_config_toml(&spec),
        format!("{}[storage]\nsegment_bytes = 1073741824\n\n{}", FIXED_HEAD, METRICS)
    );
    spec.storage = Some(StorageConfig {
        segment_bytes: None,
        retention_hours: Some(168),
        retention_bytes: None,
    });
    assert_eq!(
        generate_config_toml(&spec),
        format!("{}[storage]\nretention_hours = 168\n\n{}", FIXED_HEAD, METRICS)
    );
    spec.storage = Some(StorageConfig {
        segment_bytes: Some(-42),
        retention_hours: Some(0),
        retention_bytes: None,
    });
    assert_eq!(
        generate_config_toml(&spec),
        format!("{}[storage]\nsegment_bytes = -42\nretention_hours = 0\n\n{}", FIXED_HEAD, METRICS)
    );
    spec.storage = Some(StorageConfig {
        segment_bytes: None,
        retention_hours: None,
        retention_bytes: None,
    });
    assert_eq!(generate_config_toml(&spec), format!("{}[storage]\n\n{}", FIXED_HEAD, METRICS));
}

#[test]
fn one_mirror_source_gives_one_block() {
    let mut spec = ShazamqClusterSpec::with_defaults(3);
    spec.mirror = Some(MirrorConfig {
        enabled: true,
        sources: vec![source("src1", "b:9092", "g1", &["t1", "t2"])],
    });
    let text = generate_config_toml(&spec);
    assert_eq!(count(&text, "[[mirror.sources]]"), 1);
    assert!(text.contains("topic_whitelist = [\"t1\", \"t2\"]\n"));
    let expected = format!(
        "{}[storage]\n\n{}[mirror]\nenabled = true\n\n[[mirror.sources]]\nname = \"src1\"\nbootstrap_servers = \"b:9092\"\nsecurity_protocol = \"PLAINTEXT\"\nconsumer_group_id = \"g1\"\ntopic_whitelist = [\"t1\", \"t2\"]\n\n",
        FIXED_HEAD, METRICS
    );
    assert_eq!(text, expected);
}

#[test]
fn no_tiered_storage_no_section() {
    let spec = ShazamqClusterSpec::with_defaults(3);
    let text = generate_config_toml(&spec);
    assert!(!text.contains("tiered_storage"));
    assert!(!text.contains("[mirror]"));
}

#[test]
fn tiered_storage_switched_off_is_left_out() {
    let mut spec = ShazamqClusterSpec::with_defaults(3);
    spec.tiered_storage = Some(TieredStorageConfig {
        enabled: false,
        provider: "s3".to_string(),
        hot_tier_retention_hours: Some(24),
        s3: None,
    });
    assert_eq!(generate_config_toml(&spec), format!("{}[storage]\n\n{}", FIXED_HEAD, METRICS));
}

#[test]
fn tiered_storage_without_object_store() {
    let mut spec = ShazamqClusterSpec::with_defaults(3);
    spec.tiered_storage = Some(TieredStorageConfig {
        enabled: true,
        provider: "gcs".to_string(),
        hot_tier_retention_hours: None,
        s3: None,
    });
    assert_eq!(
        generate_config_toml(&spec),
        format!(
            "{}[storage]\n\n{}[tiered_storage]\nenabled = true\nprovider = \"gcs\"\n\n",
            FIXED_HEAD, METRICS
        )
    );
}

#[test]
fn tiered_storage_with_object_store() {
    let mut spec = ShazamqClusterSpec::with_defaults(3);
    spec.tiered_storage = Some(TieredStorageConfig {
        enabled: true,
        provider: "s3".to_string(),
        hot_tier_retention_hours: Some(24),
        s3: Some(S3Config {
            bucket: "logs".to_string(),
            region: "eu-west-1".to_string(),
            prefix: "shazamq/".to_string(),
            endpoint: Some("http://minio:9000".to_string()),
            credentials_secret: None,
        }),
    });
    assert_eq!(
        generate_config_toml(&spec),
        format!(
            "{}[storage]\n\n{}[tiered_storage]\nenabled = true\nprovider = \"s3\"\n\n[tiered_storage.s3]\nbucket = \"logs\"\nregion = \"eu-west-1\"\nprefix = \"shazamq/\"\n\n",
            FIXED_HEAD, METRICS
        )
    );
}

#[test]
fn mirror_switched_off_is_left_out() {
    let mut spec = ShazamqClusterSpec::with_defaults(3);
    spec.mirror = Some(MirrorConfig {
        enabled: false,
        sources: vec![source("src1", "b:9092", "g1", &["t1"])],
    });
    assert_eq!(generate_config_toml(&spec), format!("{}[storage]\n\n{}", FIXED_HEAD, METRICS));
}

#[test]
fn mirror_without_sources_has_its_header_alone() {
    let mut spec = ShazamqClusterSpec::with_defaults(3);
    spec.mirror = Some(MirrorConfig { enabled: true, sources: vec![] });
    assert_eq!(
        generate_config_toml(&spec),
        format!("{}[storage]\n\n{}[mirror]\nenabled = true\n\n", FIXED_HEAD, METRICS)
    );
}

#[test]
fn mirror_sources_keep_their_order() {
    let mut spec = ShazamqClusterSpec::with_defaults(3);
    spec.mirror = Some(MirrorConfig {
        enabled: true,
        sources: vec![
            source("west", "w:9092", "gw", &[]),
            source("east", "e:9092", "ge", &["only"]),
            source("north", "n:9092", "gn", &["a", "b", "c"]),
        ],
    });
    let text = generate_config_toml(&spec);
    assert_eq!(count(&text, "[[mirror.sources]]"), 3);
    let west = text.find("name = \"west\"").unwrap();
    let east = text.find("name = \"east\"").unwrap();
    let north = text.find("name = \"north\"").unwrap();
    assert!(west < east && east < north);
    assert!(text.contains("consumer_group_id = \"gw\"\ntopic_whitelist = []\n\n"));
    assert!(text.contains("consumer_group_id = \"ge\"\ntopic_whitelist = [\"only\"]\n\n"));
    assert!(text.contains("consumer_group_id = \"gn\"\ntopic_whitelist = [\"a\", \"b\", \"c\"]\n\n"));
}

#[test]
fn all_sections_come_in_their_fixed_order() {
    let mut spec = ShazamqClusterSpec::with_defaults(3);
    spec.mirror = Some(MirrorConfig {
        enabled: true,
        sources: vec![source("src1", "b:9092", "g1", &["t1"])],
    });
    spec.tiered_storage = Some(TieredStorageConfig {
        enabled: true,
        provider: "s3".to_string(),
        hot_tier_retention_hours: None,
        s3: None,
    });
    spec.storage = Some(StorageConfig {
        segment_bytes: Some(1),
        retention_hours: Some(2),
        retention_bytes: None,
    });
    let text = generate_config_toml(&spec);
    let places: Vec<usize> = ["[broker]", "[storage]", "[metrics]", "[tiered_storage]", "[mirror]"]
        .iter()
        .map(|h| text.find(h).unwrap())
        .collect();
    assert!(places.windows(2).all(|w| w[0] < w[1]));
}

#[test]
fn same_spec_gives_the_same_text() {
    let build = || {
        let mut spec = ShazamqClusterSpec::with_defaults(2);
        spec.storage = Some(StorageConfig {
            segment_bytes: Some(77),
            retention_hours: Some(12),
            retention_bytes: None,
        });
        spec.mirror = Some(MirrorConfig {
            enabled: true,
            sources: vec![source("s", "h:1", "g", &["x", "y"])],
        });
        spec
    };
    let first = generate_config_toml(&build());
    let second = generate_config_toml(&build());
    assert_eq!(first, second);
    let one = build();
    assert_eq!(generate_config_toml(&one), generate_config_toml(&one));
}

#[test]
fn decimal_text_of_integers() {
    assert_eq!(render_decimal(0), "0");
    assert_eq!(render_decimal(7), "7");
    assert_eq!(render_decimal(10), "10");
    assert_eq!(render_decimal(-1), "-1");
    assert_eq!(render_decimal(1234567890), "1234567890");
    assert_eq!(render_decimal(i64::MAX), "9223372036854775807");
    assert_eq!(render_decimal(i64::MIN), "-9223372036854775808");
    for n in [-1000i64, -999, -10, -9, 9, 99, 100, 101, 4096, 65535] {
        assert_eq!(render_decimal(n), format!("{}", n));
    }
}

fn header_lines(text: &str) -> Vec<&str> {
    text.split('\n').filter(|l| l.starts_with('[')).collect()
}

#[test]
fn header_lines_stand_in_their_order() {
    let mut spec = ShazamqClusterSpec::with_defaults(3);
    assert_eq!(header_lines(&generate_config_toml(&spec)), vec!["[broker]", "[storage]", "[metrics]"]);
    spec.storage = Some(StorageConfig {
        segment_bytes: Some(1),
        retention_hours: Some(2),
        retention_bytes: None,
    });
    spec.tiered_storage = Some(TieredStorageConfig {
        enabled: true,
        provider: "s3".to_string(),
        hot_tier_retention_hours: None,
        s3: Some(S3Config {
            bucket: "[bucket]".to_string(),
            region: "r".to_string(),
            prefix: "p".to_string(),
            endpoint: None,
            credentials_secret: None,
        }),
    });
    spec.mirror = Some(MirrorConfig {
        enabled: true,
        sources: vec![
            source("[a]", "h:1", "g", &["[t]"]),
            source("b", "h:2", "g", &[]),
        ],
    });
    assert_eq!(
        header_lines(&generate_config_toml(&spec)),
        vec![
            "[broker]",
            "[storage]",
            "[metrics]",
            "[tiered_storage]",
            "[tiered_storage.s3]",
            "[mirror]",
            "[[mirror.sources]]",
            "[[mirror.sources]]",
        ]
    );
}

#[test]
fn without_tiered_storage_no_line_opens_its_section() {
    let mut spec = ShazamqClusterSpec::with_defaults(3);
    spec.mirror = Some(MirrorConfig {
        enabled: true,
        sources: vec![source("[tiered_storage]", "h:1", "g", &["[tiered_storage"])],
    });
    spec.tiered_storage = Some(TieredStorageConfig {
        enabled: false,
        provider: "s3".to_string(),
        hot_tier_retention_hours: None,
        s3: None,
    });
    let text = generate_config_toml(&spec);
    assert!(text.split('\n').all(|l| !l.starts_with("[tiered_storage")));
    spec.tiered_storage = None;
    let text = generate_config_toml(&spec);
    assert!(text.split('\n').all(|l| !l.starts_with("[tiered_storage")));
    assert_eq!(
        header_lines(&text),
        vec!["[broker]", "[storage]", "[metrics]", "[mirror]", "[[mirror.sources]]"]
    );
}
