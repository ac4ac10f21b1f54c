use workshop_transfer::request::{Method, Request};

#[test]
fn listing_request_is_a_get_with_the_cookie() {
    let request = Request::listing("alice", 294100, "steamLoginSecure=abc", 1);
    assert_eq!(request.method, Method::Get);
    assert_eq!(
        request.url,
        "https://steamcommunity.com/id/alice/myworkshopfiles/?appid=294100&browsefilter=mysubscriptions&p=1&numperpage=30"
    );
    assert_eq!(request.header_name, "cookie");
    assert_eq!(request.header_value, "steamLoginSecure=abc");
}

#[test]
fn listing_request_names_the_page() {
    let request = Request::listing("bob", 4000, "", 27);
    assert_eq!(
        request.url,
        "https://steamcommunity.com/id/bob/myworkshopfiles/?appid=4000&browsefilter=mysubscriptions&p=27&numperpage=30"
    );
    assert_eq!(request.header_value, "");
}

#[test]
fn listing_request_takes_the_name_as_it_is() {
    let request = Request::listing("a b/ü", -1, "c", 10);
    assert_eq!(
        request.url,
        "https://steamcommunity.com/id/a b/ü/myworkshopfiles/?appid=-1&browsefilter=mysubscriptions&p=10&numperpage=30"
    );
}

#[test]
fn subscribe_request_is_a_post_without_content() {
    let request = Request::subscribe(2669101904, "KEY");
    assert_eq!(request.method, Method::Post);
    assert_eq!(
        request.url,
        "https://api.steampowered.com/IPublishedFileService/Subscribe/v1/?key=KEY&publishedfileid=2669101904&list_type=1"
    );
    assert_eq!(request.header_name, "content-length");
    assert_eq!(request.header_value, "0");
}

#[test]
fn subscribe_request_takes_any_id() {
    let request = Request::subscribe(-7, "");
    assert_eq!(
        request.url,
        "https://api.steampowered.com/IPublishedFileService/Subscribe/v1/?key=&publishedfileid=-7&list_type=1"
    );
}
