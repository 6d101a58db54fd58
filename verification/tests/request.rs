use tpi::cli::ApiVersion;
use tpi::request::{url_from_host, BuildError, Method, Payload, Param, Request, Route};

fn s(text: &str) -> String {
    String::from(text)
}

#[test]
fn new_request_is_a_get_to_the_base_path() {
    let r = Request::new(s("turingpi.local"), ApiVersion::V1_1, (Some(s("u")), None), "TPI (x;y;z)")
        .unwrap();
    assert_eq!(r.host, "turingpi.local");
    assert_eq!(r.ver, ApiVersion::V1_1);
    assert_eq!(r.creds, (Some(s("u")), None));
    assert_eq!(r.method, Method::Get);
    assert_eq!(r.url().base, "https://turingpi.local/api/bmc");
    assert_eq!(r.url().route, Route::Api);
    assert!(r.url().query.is_empty());
    assert_eq!(r.user_agent, Some(s("TPI (x;y;z)")));
    assert_eq!(r.multipart, None);
}

#[test]
fn scheme_follows_the_api_version() {
    assert_eq!(ApiVersion::V1.scheme(), "http");
    assert_eq!(ApiVersion::V1_1.scheme(), "https");
    assert_eq!(url_from_host("10.0.0.2:8080", "http"), Some(s("http://10.0.0.2:8080/api/bmc")));
    assert_eq!(url_from_host("[::1]", "https"), Some(s("https://[::1]/api/bmc")));
    assert_eq!(url_from_host("Turing.Local", "https"), Some(s("https://turing.local/api/bmc")));
}

#[test]
fn host_that_makes_no_url_is_refused() {
    assert_eq!(url_from_host("", "https"), None);
    assert_eq!(url_from_host("a b", "https"), None);
    assert_eq!(
        Request::new(s("a b"), ApiVersion::V1, (None, None), "TPI").err(),
        Some(BuildError::InvalidUrl)
    );
    assert_eq!(
        Request::new(s(""), ApiVersion::V1_1, (None, None), "bad\nagent").err(),
        Some(BuildError::InvalidUrl)
    );
}

#[test]
fn user_agent_must_be_a_header_value() {
    assert_eq!(
        Request::new(s("host"), ApiVersion::V1, (None, None), "bad\nagent").err(),
        Some(BuildError::InvalidUserAgent)
    );
    assert_eq!(
        Request::new(s("host"), ApiVersion::V1, (None, None), "del\u{7f}").err(),
        Some(BuildError::InvalidUserAgent)
    );
    assert!(Request::new(s("host"), ApiVersion::V1, (None, None), "tab\tand caf\u{e9}").is_ok());
}

#[test]
fn post_twin_keeps_host_and_credential_only() {
    let mut r =
        Request::new(s("host"), ApiVersion::V1, (Some(s("u")), Some(s("p"))), "TPI").unwrap();
    r.url_mut().append_pair("opt", "set");
    r.set_multipart(Payload::Chunked { length: 5 });
    let p = r.to_post().unwrap();
    assert_eq!(p.method, Method::Post);
    assert_eq!(p.host, "host");
    assert_eq!(p.ver, ApiVersion::V1);
    assert_eq!(p.creds, (Some(s("u")), Some(s("p"))));
    assert_eq!(p.url().base, "http://host/api/bmc");
    assert_eq!(p.url().route, Route::Api);
    assert!(p.url().query.is_empty());
    assert_eq!(p.user_agent, None);
    assert_eq!(p.multipart, None);
}

#[test]
fn query_grows_at_its_end() {
    let mut r = Request::new(s("host"), ApiVersion::V1, (None, None), "TPI").unwrap();
    r.url_mut().append_pair("opt", "set");
    r.url_mut().append_number("node", 3);
    r.url_mut().append_key_only("skip_crc");
    assert_eq!(
        r.url().query,
        vec![
            Param::Pair(s("opt"), s("set")),
            Param::Number(s("node"), 3),
            Param::Flag(s("skip_crc")),
        ]
    );
    assert_eq!(r.url().query[0].duplicate(), Param::pair("opt", "set"));
    assert_eq!(Param::number("node", 3), r.url().query[1]);
    assert_eq!(Param::flag("skip_crc"), r.url().query[2]);
    r.url_mut().clear_query();
    assert!(r.url().query.is_empty());
    assert_eq!(r.url().base, "http://host/api/bmc");
}

#[test]
fn copy_of_a_request_has_no_body() {
    let mut r = Request::new(s("host"), ApiVersion::V1_1, (None, Some(s("p"))), "TPI").unwrap();
    r.url_mut().append_pair("opt", "get");
    r.url_mut().route = Route::Upload(7);
    r.set_multipart(Payload::Whole { file_name: s("image.img") });
    assert_eq!(r.multipart, Some(Payload::Whole { file_name: s("image.img") }));
    let c = r.clone();
    assert_eq!(c.multipart, None);
    assert_eq!(c.host, r.host);
    assert_eq!(c.ver, r.ver);
    assert_eq!(c.creds, r.creds);
    assert_eq!(c.method, r.method);
    assert_eq!(c.user_agent, r.user_agent);
    assert_eq!(c.url(), r.url());
    assert_eq!(c.url().duplicate(), c.target);
}

#[test]
fn address_is_base_route_and_query() {
    let mut r = Request::new(s("turingpi.local"), ApiVersion::V1_1, (None, None), "TPI").unwrap();
    assert_eq!(r.url().address(), Some(s("https://turingpi.local/api/bmc")));
    r.url_mut().append_pair("opt", "set");
    r.url_mut().append_pair("type", "flash");
    r.url_mut().append_pair("file", "os.img");
    r.url_mut().append_number("length", 200_000);
    r.url_mut().append_number("node", 0);
    r.url_mut().append_key_only("skip_crc");
    assert_eq!(
        r.url().address(),
        Some(s(
            "https://turingpi.local/api/bmc?opt=set&type=flash&file=os.img&length=200000&node=0&skip_crc"
        ))
    );
    assert_eq!(r.url().route_address(), Some(s("https://turingpi.local/api/bmc")));
}

#[test]
fn routes_add_path_segments() {
    let mut r = Request::new(s("10.0.0.2:8443"), ApiVersion::V1_1, (None, None), "TPI").unwrap();
    r.url_mut().route = Route::Authenticate;
    assert_eq!(r.url().address(), Some(s("https://10.0.0.2:8443/api/bmc/authenticate")));
    r.url_mut().route = Route::Upload(7);
    assert_eq!(r.url().address(), Some(s("https://10.0.0.2:8443/api/bmc/upload/7")));
    r.url_mut().route = Route::Upload(u64::MAX);
    r.url_mut().append_key_only("local");
    assert_eq!(
        r.url().address(),
        Some(s("https://10.0.0.2:8443/api/bmc/upload/18446744073709551615?local"))
    );
}

#[test]
fn query_is_form_encoded() {
    let mut r = Request::new(s("host"), ApiVersion::V1, (None, None), "TPI").unwrap();
    r.url_mut().append_pair("cmd", "ls -l");
    r.url_mut().append_pair("file", "/mnt/sdcard/os.img");
    r.url_mut().append_key_only("a&b");
    assert_eq!(
        r.url().address(),
        Some(s("http://host/api/bmc?cmd=ls+-l&file=%2Fmnt%2Fsdcard%2Fos.img&a%26b"))
    );
}

#[test]
fn base_that_is_no_url_has_no_address() {
    let mut r = Request::new(s("host"), ApiVersion::V1, (None, None), "TPI").unwrap();
    r.url_mut().base = s("not a url");
    assert_eq!(r.url().address(), Some(s("not a url")));
    r.url_mut().append_pair("opt", "get");
    assert_eq!(r.url().address(), None);
    r.url_mut().clear_query();
    r.url_mut().route = Route::Authenticate;
    assert_eq!(r.url().address(), None);
    r.url_mut().base = s("mailto:root@host");
    assert_eq!(r.url().address(), None);
}

#[test]
fn host_takes_its_port_behind_a_colon() {
    use_host("turingpi.local", None, Some("turingpi.local"));
    use_host("turingpi.local", Some(8443), Some("turingpi.local:8443"));
    use_host("TuringPi.Local", Some(0), Some("turingpi.local:0"));
    use_host("192.168.1.10", Some(65535), Some("192.168.1.10:65535"));
    use_host("[::1]", Some(80), Some("[::1]:80"));
    use_host("a b", Some(80), None);
    use_host("[::1", None, None);
}

fn use_host(host: &str, port: Option<u16>, expected: Option<&str>) {
    assert_eq!(tpi::request::host_with_port(host, port), expected.map(String::from));
}
