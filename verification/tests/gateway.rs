use daily_checkin::api::{
    ApiClient, ApiError, Award, ConfigError, HomeData, InfoData, Message, Method, RecommendData,
    Reply, SignData,
};
use daily_checkin::error::AgentError;
use daily_checkin::schedule::RefreshWindow;

fn client() -> ApiClient {
    ApiClient::new(
        String::from("https://example.test/event/{}?lang=en-us"),
        String::from("ltoken=abc; ltuid=42"),
    )
    .unwrap()
}

fn answered<T>(retcode: i32, data: Option<T>) -> Reply<T> {
    Reply::Answered { status: 200, body: Ok(Message { retcode, data }) }
}

fn info(days: i32, signed: bool, missed: i32) -> InfoData {
    InfoData { total_sign_day: days, is_sign: signed, sign_cnt_missed: missed }
}

#[test]
fn envelope_with_code_zero_and_data_yields_the_data() {
    let message = Message { retcode: 0, data: Some(info(7, true, 2)) };
    assert_eq!(message.into_payload(), Ok(info(7, true, 2)));
}

#[test]
fn envelope_with_other_code_fails_with_data() {
    let message = Message { retcode: -5003, data: Some(info(7, true, 2)) };
    assert_eq!(message.into_payload(), Err(ApiError::Retcode(-5003)));
}

#[test]
fn envelope_with_other_code_fails_without_data() {
    let message: Message<InfoData> = Message { retcode: 1, data: None };
    assert_eq!(message.into_payload(), Err(ApiError::Retcode(1)));
    let post: Message<SignData> = Message { retcode: 1, data: None };
    assert_eq!(post.acknowledge(), Err(ApiError::Retcode(1)));
}

#[test]
fn reading_needs_data_and_check_in_does_not() {
    let read: Message<InfoData> = Message { retcode: 0, data: None };
    assert_eq!(read.into_payload(), Err(ApiError::MissingData));
    let post: Message<SignData> = Message { retcode: 0, data: None };
    assert_eq!(post.acknowledge(), Ok(()));
}

#[test]
fn check_in_ignores_its_data() {
    let post = Message { retcode: 0, data: Some(SignData {}) };
    assert_eq!(post.acknowledge(), Ok(()));
    let refused = Message { retcode: -100, data: Some(SignData {}) };
    assert_eq!(refused.acknowledge(), Err(ApiError::Retcode(-100)));
}

#[test]
fn get_info_reads_the_status() {
    let c = client();
    assert_eq!(c.get_info(answered(0, Some(info(3, false, 1)))), Ok(info(3, false, 1)));
    assert_eq!(c.get_info(answered(0, None)), Err(ApiError::MissingData));
    assert_eq!(c.get_info(answered(-1, Some(info(3, false, 1)))), Err(ApiError::Retcode(-1)));
}

fn recommend(now: &str, refresh: &str) -> Reply<RecommendData> {
    answered(
        0,
        Some(RecommendData { now: String::from(now), refresh_time: String::from(refresh) }),
    )
}

#[test]
fn get_recommend_reads_the_timestamps_as_numbers() {
    let c = client();
    assert_eq!(
        c.get_recommend(recommend("100", "500")),
        Ok(RefreshWindow { server_now: 100, next_refresh: 500 })
    );
    assert_eq!(
        c.get_recommend(recommend("1700000000", "1700003600")),
        Ok(RefreshWindow { server_now: 1700000000, next_refresh: 1700003600 })
    );
    assert_eq!(
        c.get_recommend(recommend("+7", "18446744073709551615")),
        Ok(RefreshWindow { server_now: 7, next_refresh: u64::MAX })
    );
}

#[test]
fn get_recommend_fails_on_a_timestamp_that_is_no_number() {
    let c = client();
    assert_eq!(
        c.get_recommend(recommend("abc", "500")),
        Err(AgentError::Timestamp(String::from("abc")))
    );
    assert_eq!(c.get_recommend(recommend("", "500")), Err(AgentError::Timestamp(String::new())));
    assert_eq!(
        c.get_recommend(recommend("100", "abc")),
        Err(AgentError::Timestamp(String::from("abc")))
    );
    assert_eq!(c.get_recommend(recommend("100", "")), Err(AgentError::Timestamp(String::new())));
    assert_eq!(
        c.get_recommend(recommend("x", "y")),
        Err(AgentError::Timestamp(String::from("x")))
    );
    assert_eq!(
        c.get_recommend(recommend("100", "18446744073709551616")),
        Err(AgentError::Timestamp(String::from("18446744073709551616")))
    );
    assert_eq!(
        c.get_recommend(recommend("-1", "5")),
        Err(AgentError::Timestamp(String::from("-1")))
    );
}

#[test]
fn get_recommend_fails_as_every_reading_does() {
    let c = client();
    assert_eq!(c.get_recommend(answered(0, None)), Err(AgentError::Api(ApiError::MissingData)));
    assert_eq!(
        c.get_recommend(Reply::Answered {
            status: 200,
            body: Ok(Message {
                retcode: -1,
                data: Some(RecommendData {
                    now: String::from("100"),
                    refresh_time: String::from("500"),
                }),
            }),
        }),
        Err(AgentError::Api(ApiError::Retcode(-1)))
    );
    assert_eq!(
        c.get_recommend(Reply::Answered { status: 500, body: Err(String::from("no json")) }),
        Err(AgentError::Api(ApiError::Status(500)))
    );
    assert_eq!(
        c.get_recommend(Reply::Answered { status: 200, body: Err(String::from("no json")) }),
        Err(AgentError::Api(ApiError::Malformed(String::from("no json"))))
    );
}

#[test]
fn get_awards_hands_out_the_list() {
    let c = client();
    let award =
        Award { icon: String::from("https://img.test/a.png"), name: String::from("Mora"), cnt: 5000 };
    let same =
        Award { icon: String::from("https://img.test/a.png"), name: String::from("Mora"), cnt: 5000 };
    let reply = answered(0, Some(HomeData { awards: vec![award] }));
    assert_eq!(c.get_awards(reply), Ok(vec![same]));
    assert_eq!(c.get_awards(answered(0, None)), Err(ApiError::MissingData));
    assert_eq!(c.get_awards(answered(9, None)), Err(ApiError::Retcode(9)));
}

#[test]
fn post_sign_is_settled_by_the_code() {
    let c = client();
    assert_eq!(c.post_sign(answered(0, None)), Ok(()));
    assert_eq!(c.post_sign(answered(0, Some(SignData {}))), Ok(()));
    assert_eq!(c.post_sign(answered(-5003, None)), Err(ApiError::Retcode(-5003)));
}

#[test]
fn transport_failure_is_an_error_of_every_operation() {
    let c = client();
    let down = || String::from("connection refused");
    assert_eq!(c.get_info(Reply::Failed(down())), Err(ApiError::Transport(down())));
    assert_eq!(
        c.get_recommend(Reply::Failed(down())),
        Err(AgentError::Api(ApiError::Transport(down())))
    );
    assert_eq!(c.get_awards(Reply::Failed(down())), Err(ApiError::Transport(down())));
    assert_eq!(c.post_sign(Reply::Failed(down())), Err(ApiError::Transport(down())));
}

#[test]
fn status_outside_the_two_hundreds_is_an_error() {
    let c = client();
    let body = || Ok(Message { retcode: 0, data: Some(info(1, true, 0)) });
    assert_eq!(c.get_info(Reply::Answered { status: 199, body: body() }), Err(ApiError::Status(199)));
    assert_eq!(c.get_info(Reply::Answered { status: 200, body: body() }), Ok(info(1, true, 0)));
    assert_eq!(c.get_info(Reply::Answered { status: 299, body: body() }), Ok(info(1, true, 0)));
    assert_eq!(c.get_info(Reply::Answered { status: 300, body: body() }), Err(ApiError::Status(300)));
    assert_eq!(c.get_info(Reply::Answered { status: 404, body: body() }), Err(ApiError::Status(404)));
    assert_eq!(c.get_info(Reply::Answered { status: 503, body: body() }), Err(ApiError::Status(503)));
}

#[test]
fn bad_status_comes_before_bad_body() {
    let reply: Reply<InfoData> =
        Reply::Answered { status: 500, body: Err(String::from("expected value at line 1")) };
    assert_eq!(reply.into_envelope(), Err(ApiError::Status(500)));
}

#[test]
fn malformed_body_is_an_error() {
    let c = client();
    let reply: Reply<InfoData> =
        Reply::Answered { status: 200, body: Err(String::from("missing field `retcode`")) };
    assert_eq!(
        c.get_info(reply),
        Err(ApiError::Malformed(String::from("missing field `retcode`")))
    );
    let sign: Reply<SignData> =
        Reply::Answered { status: 200, body: Err(String::from("EOF while parsing")) };
    assert_eq!(c.post_sign(sign), Err(ApiError::Malformed(String::from("EOF while parsing"))));
}

#[test]
fn generic_reading_applies_the_same_policy() {
    let c = client();
    assert_eq!(c.get_request_with_error_handling(answered(0, Some(17u8))), Ok(17u8));
    assert_eq!(
        c.get_request_with_error_handling::<u8>(answered(0, None)),
        Err(ApiError::MissingData)
    );
    assert_eq!(
        c.get_request_with_error_handling(answered(3, Some(17u8))),
        Err(ApiError::Retcode(3))
    );
}

#[test]
fn url_has_the_endpoint_in_place_of_the_placeholder() {
    let c = client();
    assert_eq!(c.get_url("info"), "https://example.test/event/info?lang=en-us");
    assert_eq!(c.get_url("sign"), "https://example.test/event/sign?lang=en-us");
    assert_eq!(c.get_url(""), "https://example.test/event/?lang=en-us");
}

#[test]
fn url_replaces_every_placeholder_and_nothing_else() {
    let c = ApiClient::new(String::from("{}/a{b}/{}{}{/}{"), String::from("c")).unwrap();
    assert_eq!(c.get_url("x"), "x/a{b}/xx{/}{");
    let plain = ApiClient::new(String::from("https://example.test/fixed"), String::from("c")).unwrap();
    assert_eq!(plain.get_url("info"), "https://example.test/fixed");
    let empty = ApiClient::new(String::new(), String::from("c")).unwrap();
    assert_eq!(empty.get_url("info"), "");
    let wide = ApiClient::new(String::from("é{}ü{"), String::from("c")).unwrap();
    assert_eq!(wide.get_url("ñ"), "éñü{");
    let nested = ApiClient::new(String::from("{{}}"), String::from("c")).unwrap();
    assert_eq!(nested.get_url("{}"), "{{}}");
}

#[test]
fn requests_carry_method_and_url() {
    let c = client();
    let get = c.get_request("home");
    assert_eq!(get.method, Method::Get);
    assert_eq!(get.url, "https://example.test/event/home?lang=en-us");
    let post = c.post_request("sign");
    assert_eq!(post.method, Method::Post);
    assert_eq!(post.url, "https://example.test/event/sign?lang=en-us");
}

#[test]
fn client_keeps_the_cookie_as_header_value() {
    let c = client();
    assert_eq!(c.cookie_header().as_bytes(), b"ltoken=abc; ltuid=42");
    let tabbed = ApiClient::new(String::from("{}"), String::from("a\tb")).unwrap();
    assert_eq!(tabbed.cookie_header().as_bytes(), b"a\tb");
    let wide = ApiClient::new(String::from("{}"), String::from("naïve")).unwrap();
    assert_eq!(wide.cookie_header().as_bytes(), "naïve".as_bytes());
    let empty = ApiClient::new(String::from("{}"), String::new()).unwrap();
    assert_eq!(empty.cookie_header().as_bytes(), b"");
}

#[test]
fn client_refuses_a_cookie_that_is_no_header_value() {
    for bad in ["line\nbreak", "carriage\rreturn", "nul\0", "delete\u{7f}", "\u{1f}unit"] {
        let r = ApiClient::new(String::from("{}"), String::from(bad));
        assert!(matches!(r, Err(ConfigError::InvalidCookie)));
    }
}
