use iobench::hdfs_target::{hdfs_target, target_from_parts, HdfsTargetError, UrlParts};

#[test]
fn splits_hdfs_url() {
    let target = hdfs_target("hdfs://namenode:9000/user/bench/file").unwrap();
    assert_eq!(target.header, "hdfs://namenode");
    assert_eq!(target.path, "/user/bench/file");
}

#[test]
fn ipv6_host_keeps_brackets() {
    let target = hdfs_target("hdfs://[::1]:9000/f").unwrap();
    assert_eq!(target.header, "hdfs://[::1]");
    assert_eq!(target.path, "/f");
}

#[test]
fn rejects_non_urls_and_hostless_urls() {
    assert!(matches!(hdfs_target("not a url"), Err(HdfsTargetError::InvalidUrl(_))));
    assert!(matches!(hdfs_target("file:///tmp/x"), Err(HdfsTargetError::MissingHost)));
}

#[test]
fn joins_parts() {
    let target = target_from_parts(UrlParts {
        scheme: "viewfs".to_string(),
        host: Some("cluster".to_string()),
        path: "/a/b".to_string(),
    });
    assert_eq!(target.header, "viewfs://cluster");
    assert_eq!(target.path, "/a/b");
}

#[test]
fn reports_url_parse_error() {
    match hdfs_target("not a url") {
        Err(HdfsTargetError::InvalidUrl(e)) => assert_eq!(e, url::ParseError::RelativeUrlWithoutBase),
        other => panic!("unexpected {:?}", other),
    }
    match hdfs_target("hdfs://host:99999/f") {
        Err(HdfsTargetError::InvalidUrl(e)) => assert_eq!(e, url::ParseError::InvalidPort),
        other => panic!("unexpected {:?}", other),
    }
}
