use filelist_sync::codec::{derive_remote_key, get_partition_key_from_filename};

#[test]
fn test_get_partition_key_from_filename() {
    let filename = "org/logs/stream_name/2022/10/12/13/";
    let partition_key = get_partition_key_from_filename(filename);
    println!("{}", partition_key);
}

#[test]
fn partition_key_keeps_only_key_value_tokens() {
    let pk = get_partition_key_from_filename("org=o1_stream=logs_2022_10_12_13");
    assert_eq!(pk, "org=o1/stream=logs/");
}

#[test]
fn partition_key_normalizes_dots() {
    let pk = get_partition_key_from_filename("kubernetes.pod=a.b_x");
    assert_eq!(pk, "kubernetes_pod=a_b/");
}

#[test]
fn partition_key_without_key_value_tokens_is_a_lone_slash() {
    assert_eq!(get_partition_key_from_filename("org_logs_2022"), "/");
    assert_eq!(get_partition_key_from_filename(""), "/");
}

#[test]
fn partition_key_preserves_token_order() {
    let pk = get_partition_key_from_filename("b=2_a=1");
    assert_eq!(pk, "b=2/a=1/");
}

#[test]
fn remote_key_shape() {
    let key = derive_remote_key("x_org1_logs_2023-10-01_13_abc").unwrap();
    assert_eq!(key, "file_list/org1/logs/2023-10-01/13/abc.zst");
}

#[test]
fn remote_key_needs_six_fields() {
    assert!(derive_remote_key("a_b_c_d_e").is_none());
    assert!(derive_remote_key("").is_none());
    assert_eq!(derive_remote_key("a_b_c_d_e_f").unwrap(), "file_list/b/c/d/e/f.zst");
}

#[test]
fn remote_key_ignores_fields_past_the_sixth() {
    assert_eq!(
        derive_remote_key("a_b_c_d_e_f_g_h").unwrap(),
        derive_remote_key("z_b_c_d_e_f").unwrap()
    );
}

#[test]
fn remote_key_is_deterministic() {
    let name = "x_org1_logs_2023-10-01_13_abc";
    assert_eq!(derive_remote_key(name).unwrap(), derive_remote_key(name).unwrap());
}
