use figcli::text::{parse_u16, split_chars, str_eq, u16_to_decimal};
use figcli::{
    confirms_overwrite, generate_kong_api_keys, random_alphanum, select_by_extension,
    temp_file_name, FigError,
};

#[test]
fn random_alphanum_is_lowercase_alphanumeric() {
    for len in [0usize, 1, 8, 50] {
        let s = random_alphanum(len);
        assert_eq!(s.chars().count(), len);
        assert!(s.chars().all(|c| c.is_ascii_lowercase() || c.is_ascii_digit()));
    }
}

#[test]
fn temp_file_names_are_unique_uuids_with_extension() {
    let a = temp_file_name("ini");
    let b = temp_file_name("ini");
    assert_ne!(a, b);
    assert_eq!(a.len(), 40);
    assert!(a.ends_with(".ini"));
    assert_eq!(a.matches('-').count(), 4);
}

#[test]
fn overwrite_answers() {
    assert!(confirms_overwrite('y'));
    assert!(confirms_overwrite('Y'));
    assert!(!confirms_overwrite('n'));
    assert!(!confirms_overwrite('\0'));
}

#[test]
fn decimal_numerals() {
    assert_eq!(u16_to_decimal(0), "0");
    assert_eq!(u16_to_decimal(7), "7");
    assert_eq!(u16_to_decimal(5432), "5432");
    assert_eq!(u16_to_decimal(65535), "65535");
}

#[test]
fn u16_parsing_matches_std() {
    for s in ["0", "80", "+80", "0080", "65535", "65536", "", "+", "-1", "8a", " 8", "99999999999"] {
        assert_eq!(parse_u16(s), s.parse::<u16>().ok(), "{s}");
    }
}

#[test]
fn splitting_keeps_empty_pieces() {
    assert_eq!(split_chars("a::b:", ':'), vec!["a", "", "b", ""]);
    assert_eq!(split_chars("", ':'), vec![""]);
    assert_eq!(split_chars("héllo:wörld", ':'), vec!["héllo", "wörld"]);
}

#[test]
fn string_equality() {
    assert!(str_eq("prod", "prod"));
    assert!(!str_eq("prod", "pro"));
    assert!(!str_eq("prod", "prox"));
}

#[test]
fn selects_toml_files_in_order() {
    let paths: Vec<String> = ["b/x.toml", "a.txt", "c/.toml", "d/y.toml", "e/z.TOML", "f/w.tar.toml"]
        .iter()
        .map(|s| s.to_string())
        .collect();
    assert_eq!(select_by_extension(&paths, Some("toml")), vec!["b/x.toml", "d/y.toml", "f/w.tar.toml"]);
    assert_eq!(select_by_extension(&paths, None), paths);
}

#[test]
fn kong_resources_encode_group_and_key() {
    let k = generate_kong_api_keys("gateway", "partner-to-orders", "admins", "67E55044-10B1-426F-9247-BB680E5FE0C8")
        .unwrap();
    assert!(k.consumer.contains("    - x-uuid:67e55044-10b1-426f-9247-bb680e5fe0c8\n"));
    assert!(k.consumer.starts_with("---\napiVersion: configuration.konghq.com/v1\nkind: KongConsumer\n"));
    assert!(k.consumer.contains("  name: partner-to-orders\n  namespace: gateway\n"));
    assert!(k.consumer.ends_with("plugin: request-transformer"));
    assert!(k.secrets.contains("  group: YWRtaW5z\n"));
    assert_eq!(k.key.len(), 50);
    assert!(k.key.chars().all(|c| c.is_ascii_lowercase() || c.is_ascii_digit()));
    assert!(!k.secrets.contains(&k.key));
    assert!(k.secrets.contains("  name: partner-to-orders-kong-keyauth\n"));
}

#[test]
fn kong_resources_need_a_uuid() {
    let r = generate_kong_api_keys("ns", "n", "g", "not-a-uuid");
    assert!(matches!(r, Err(FigError::UuidError(_))));
}
