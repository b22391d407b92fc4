use nsg_results::anonymize::anonymize_app_key;
use nsg_results::anonymize::anonymize_job_id;
use nsg_results::anonymize::anonymize_url;
use nsg_results::anonymize::anonymize_username;

#[test]
fn job_id_is_deterministic() {
    let a = anonymize_job_id("NGBW-JOB-REAL-1", true);
    let b = anonymize_job_id("NGBW-JOB-REAL-1", true);
    assert_eq!(a, b);
}

#[test]
fn job_id_identity_when_showcase_off() {
    assert_eq!(anonymize_job_id("NGBW-JOB-REAL-1", false), "NGBW-JOB-REAL-1");
    assert_eq!(anonymize_job_id("", false), "");
}

#[test]
fn job_id_pseudonym_shape() {
    for id in ["JOB123", "", "x", "a long job identifier with spaces"] {
        let p = anonymize_job_id(id, true);
        assert_eq!(p.len(), 21);
        assert!(p.starts_with("NGBW-JOB-"));
        for c in p[9..].chars() {
            assert!(c.is_ascii_digit() || c.is_ascii_uppercase());
        }
    }
}

#[test]
fn job_id_exact_value() {
    // h = fold of h*31 + byte over "JOB123" is 2193530229; its 12 base-36
    // digits, least significant first, are 9 R Y Y 9 0 1 0 0 0 0 0.
    assert_eq!(anonymize_job_id("JOB123", true), "NGBW-JOB-9RYY90100000");
}

#[test]
fn distinct_ids_get_distinct_pseudonyms_here() {
    let a = anonymize_job_id("JOB123", true);
    let b = anonymize_job_id("JOB124", true);
    assert_ne!(a, b);
}

#[test]
fn username_constant_in_showcase() {
    assert_eq!(anonymize_username("real_person", true), "demo_user");
    assert_eq!(anonymize_username("real_person", false), "real_person");
}

#[test]
fn app_key_constant_in_showcase() {
    assert_eq!(
        anonymize_app_key("real-application-key", true),
        format!("DEMO-APP-KEY-{}", "X".repeat(32))
    );
    assert_eq!(anonymize_app_key("k", false), "k");
}

#[test]
fn url_rewrites_last_two_segments() {
    let out = anonymize_url("https://host/path/demo_user_real/JOB123", true);
    let segments: Vec<&str> = out.split('/').collect();
    assert_eq!(segments[segments.len() - 2], "demo_user");
    assert_eq!(segments[segments.len() - 1], anonymize_job_id("JOB123", true));
    assert_eq!(
        out,
        format!("https://host/path/demo_user/{}", anonymize_job_id("JOB123", true))
    );
}

#[test]
fn url_without_separator_is_unchanged() {
    assert_eq!(anonymize_url("nopath", true), "nopath");
    assert_eq!(anonymize_url("", true), "");
}

#[test]
fn url_identity_when_showcase_off() {
    let url = "https://host/path/demo_user_real/JOB123";
    assert_eq!(anonymize_url(url, false), url);
}

#[test]
fn url_keeps_prefix_segments() {
    let out = anonymize_url("https://nsgr.sdsc.edu:8443/cipresrest/v1/job/alice/J7", true);
    let segments: Vec<&str> = out.split('/').collect();
    assert_eq!(segments[0], "https:");
    assert_eq!(segments[1], "");
    assert_eq!(segments[2], "nsgr.sdsc.edu:8443");
    assert_eq!(segments[3], "cipresrest");
    assert_eq!(segments[4], "v1");
    assert_eq!(segments[5], "job");
    assert_eq!(segments[6], "demo_user");
    assert_eq!(segments[7], anonymize_job_id("J7", true));
}
