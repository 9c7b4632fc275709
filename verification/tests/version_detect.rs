use proxy_updater::version::{ProxyVersion, VersionError, VersionProbe};

#[test]
fn absent_executable_counts_as_zero() {
    let r = ProxyVersion::from_probe(VersionProbe::NotFound);
    assert_eq!(r, Ok(ProxyVersion::new(0, 0, 0)));
}

#[test]
fn other_spawn_failures_are_errors() {
    let r = ProxyVersion::from_probe(VersionProbe::SpawnFailed("permission denied".to_string()));
    assert_eq!(r, Err(VersionError::Spawn("permission denied".to_string())));
}

#[test]
fn reads_the_first_version_in_the_output() {
    let out = "Xray 1.8.4 (Xray, Penetrates Everything.) Custom (go1.21.0 linux/amd64)\nA unified platform for anti-censorship.\n";
    assert_eq!(ProxyVersion::from_output(out), Ok(ProxyVersion::new(1, 8, 4)));
    let r = ProxyVersion::from_probe(VersionProbe::Output(out.as_bytes().to_vec()));
    assert_eq!(r, Ok(ProxyVersion::new(1, 8, 4)));
}

#[test]
fn the_leftmost_version_wins() {
    let out = "tool 2.10.7 built with 1.21.0";
    assert_eq!(ProxyVersion::from_output(out), Ok(ProxyVersion::new(2, 10, 7)));
}

#[test]
fn a_version_inside_a_longer_dotted_number_is_read_from_its_start() {
    assert_eq!(ProxyVersion::from_output("v1.2.3.4"), Ok(ProxyVersion::new(1, 2, 3)));
}

#[test]
fn output_without_a_version_is_an_error() {
    assert_eq!(ProxyVersion::from_output("no numbers here"), Err(VersionError::NoVersion));
    assert_eq!(ProxyVersion::from_output("only 1.2 here"), Err(VersionError::NoVersion));
    assert_eq!(ProxyVersion::from_output(""), Err(VersionError::NoVersion));
}

#[test]
fn a_version_like_text_that_does_not_parse_is_an_error() {
    assert_eq!(
        ProxyVersion::from_output("Xray 01.2.3"),
        Err(VersionError::Unparsable("01.2.3".to_string()))
    );
    assert_eq!(
        ProxyVersion::from_output("x 99999999999999999999999.0.0"),
        Err(VersionError::Unparsable("99999999999999999999999.0.0".to_string()))
    );
}

#[test]
fn output_that_is_not_utf8_is_an_error() {
    let r = ProxyVersion::from_probe(VersionProbe::Output(vec![0x58, 0xff, 0xfe, 0x31]));
    assert_eq!(r, Err(VersionError::NotUtf8));
}

#[test]
fn output_in_utf8_is_decoded_before_it_is_searched() {
    let out = "Xray \u{2014} version 1.7.5 \u{00e9}";
    let r = ProxyVersion::from_probe(VersionProbe::Output(out.as_bytes().to_vec()));
    assert_eq!(r, Ok(ProxyVersion::new(1, 7, 5)));
}

#[test]
fn a_capture_result_is_turned_into_a_version() {
    assert_eq!(ProxyVersion::from_capture(None), Err(VersionError::Pattern));
    assert_eq!(ProxyVersion::from_capture(Some(None)), Err(VersionError::NoVersion));
    assert_eq!(
        ProxyVersion::from_capture(Some(Some("1.2.3".to_string()))),
        Ok(ProxyVersion::new(1, 2, 3))
    );
    assert_eq!(
        ProxyVersion::from_capture(Some(Some("1.2".to_string()))),
        Err(VersionError::Unparsable("1.2".to_string()))
    );
}

#[test]
fn a_parse_result_is_turned_into_a_version() {
    assert_eq!(
        ProxyVersion::from_parsed("4.5.6".to_string(), Some((4, 5, 6))),
        Ok(ProxyVersion::new(4, 5, 6))
    );
    assert_eq!(
        ProxyVersion::from_parsed("junk".to_string(), None),
        Err(VersionError::Unparsable("junk".to_string()))
    );
}
