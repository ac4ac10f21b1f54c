use workshop_transfer::page::{
    collect_ids, page_item_ids, parse_item_id, IdError, PageError, ID_PREFIX, MAX_PAGE_BYTES,
    SUBSCRIPTION_SELECTOR,
};

fn some(text: &str) -> Option<String> {
    Some(text.to_string())
}

#[test]
fn id_is_read_back_from_its_attribute() {
    assert_eq!(parse_item_id("Subscription123456789"), Ok(123456789));
}

#[test]
fn id_is_read_with_leading_zeros() {
    assert_eq!(parse_item_id("Subscription007"), Ok(7));
    assert_eq!(parse_item_id("Subscription0"), Ok(0));
}

#[test]
fn id_with_a_non_numeric_suffix_is_refused() {
    assert_eq!(parse_item_id("Subscriptionabc"), Err(IdError::NotNumeric));
    assert_eq!(parse_item_id("Subscription12x"), Err(IdError::NotNumeric));
    assert_eq!(parse_item_id("SubscriptionControls"), Err(IdError::NotNumeric));
    assert_eq!(parse_item_id("Subscription 12"), Err(IdError::NotNumeric));
}

#[test]
fn id_with_a_sign_is_refused() {
    assert_eq!(parse_item_id("Subscription-5"), Err(IdError::NotNumeric));
    assert_eq!(parse_item_id("Subscription+5"), Err(IdError::NotNumeric));
}

#[test]
fn id_with_the_prefix_twice_is_refused() {
    assert_eq!(parse_item_id("SubscriptionSubscription12"), Err(IdError::NotNumeric));
}

#[test]
fn id_without_digits_is_refused() {
    assert_eq!(parse_item_id("Subscription"), Err(IdError::NoDigits));
}

#[test]
fn id_without_the_prefix_is_refused() {
    assert_eq!(parse_item_id("123"), Err(IdError::NoPrefix));
    assert_eq!(parse_item_id(""), Err(IdError::NoPrefix));
    assert_eq!(parse_item_id("subscription1"), Err(IdError::NoPrefix));
    assert_eq!(parse_item_id("Subscriptio1"), Err(IdError::NoPrefix));
    assert_eq!(parse_item_id("xSubscription1"), Err(IdError::NoPrefix));
}

#[test]
fn id_is_read_up_to_the_largest() {
    assert_eq!(parse_item_id("Subscription9223372036854775807"), Ok(i64::MAX));
    assert_eq!(parse_item_id("Subscription9223372036854775808"), Err(IdError::OutOfRange));
    assert_eq!(
        parse_item_id("Subscription99999999999999999999999"),
        Err(IdError::OutOfRange)
    );
}

#[test]
fn prefix_and_selector_are_as_the_listing_has_them() {
    assert_eq!(ID_PREFIX, "Subscription");
    assert_eq!(SUBSCRIPTION_SELECTOR, "[id^='Subscription']");
}

#[test]
fn collect_ids_keeps_the_order() {
    let attributes = vec![some("Subscription3"), some("Subscription1"), some("Subscription2")];
    assert_eq!(collect_ids(&attributes), Ok(vec![3, 1, 2]));
}

#[test]
fn collect_ids_keeps_repeated_items() {
    let attributes = vec![some("Subscription5"), some("Subscription5")];
    assert_eq!(collect_ids(&attributes), Ok(vec![5, 5]));
}

#[test]
fn collect_ids_of_nothing_is_nothing() {
    assert_eq!(collect_ids(&Vec::new()), Ok(Vec::new()));
}

#[test]
fn collect_ids_passes_over_elements_without_id() {
    let attributes = vec![None, some("Subscription1"), None, some("Subscription2")];
    assert_eq!(collect_ids(&attributes), Ok(vec![1, 2]));
}

#[test]
fn collect_ids_fails_with_the_first_bad_attribute() {
    let attributes = vec![
        some("Subscription1"),
        some("Subscription"),
        some("Subscriptionx"),
        some("Subscription2"),
    ];
    assert_eq!(collect_ids(&attributes), Err(IdError::NoDigits));
    let attributes = vec![some("Subscriptionx"), some("other")];
    assert_eq!(collect_ids(&attributes), Err(IdError::NotNumeric));
}

#[test]
fn page_yields_its_subscriptions_in_order() {
    let html = "<html><body>\
        <div id=\"Subscription111\" class=\"workshopItemSubscription\">first</div>\
        <div id=\"Subscription222\" class=\"workshopItemSubscription\">second</div>\
        </body></html>";
    assert_eq!(page_item_ids(html), Ok(vec![111, 222]));
}

#[test]
fn page_yields_nested_subscriptions() {
    let html = "<div class=\"list\"><div id=\"Subscription2669101904\">\
        <div id=\"Subscription2341745038\"></div></div></div>";
    assert_eq!(page_item_ids(html), Ok(vec![2669101904, 2341745038]));
}

#[test]
fn page_without_subscriptions_yields_nothing() {
    assert_eq!(page_item_ids(""), Ok(Vec::new()));
    assert_eq!(page_item_ids("<html><body><p>No items</p></body></html>"), Ok(Vec::new()));
    assert_eq!(page_item_ids("Subscription123"), Ok(Vec::new()));
}

#[test]
fn page_passes_over_other_elements() {
    let html = "<div id=\"header\"></div>\
        <div id=\"MySubscription6\"></div>\
        <div class=\"Subscription7\"></div>\
        <div id=\"subscription9\"></div>\
        <div id=\"Subscription8\"></div>";
    assert_eq!(page_item_ids(html), Ok(vec![8]));
}

#[test]
fn page_yields_subscriptions_of_any_element() {
    let html = "<ul><li id=\"Subscription5\"></li></ul>\
        <span id=\"Subscription6\"></span>\
        <div id=\"Subscription7\"></div>";
    assert_eq!(page_item_ids(html), Ok(vec![5, 6, 7]));
}

#[test]
fn page_with_a_non_numeric_subscription_fails() {
    let html = "<div id=\"Subscription111\"></div><div id=\"SubscriptionControls\"></div>";
    assert_eq!(page_item_ids(html), Err(PageError::Id(IdError::NotNumeric)));
}

#[test]
fn page_with_a_bare_prefix_fails() {
    let html = "<div id=\"Subscription\"></div>";
    assert_eq!(page_item_ids(html), Err(PageError::Id(IdError::NoDigits)));
}

#[test]
fn page_with_an_oversized_id_fails() {
    let html = "<div id=\"Subscription9223372036854775808\"></div>";
    assert_eq!(page_item_ids(html), Err(PageError::Id(IdError::OutOfRange)));
}

#[test]
fn page_errors_say_why() {
    assert_eq!(PageError::TooLarge.message(), "the page is too large to be parsed");
    assert_eq!(
        PageError::Selector.message(),
        "the selector for subscription elements was not accepted"
    );
    assert_eq!(
        PageError::Id(IdError::NoPrefix).message(),
        "an element id does not begin with Subscription"
    );
    assert_eq!(
        PageError::Id(IdError::NoDigits).message(),
        "an element id has no digits after Subscription"
    );
    assert_eq!(
        PageError::Id(IdError::NotNumeric).message(),
        "an element id has something other than digits after Subscription"
    );
    assert_eq!(
        PageError::Id(IdError::OutOfRange).message(),
        "an element id holds a number too large for an item id"
    );
}

#[test]
fn page_beyond_the_limit_is_refused() {
    assert_eq!(MAX_PAGE_BYTES, 536870912);
    let html = String::from_utf8(vec![b' '; MAX_PAGE_BYTES + 1]).unwrap();
    assert_eq!(page_item_ids(&html), Err(PageError::TooLarge));
}

#[test]
fn page_with_another_id_among_subscriptions_is_read() {
    let html = "<p id=\"header\"></p><p id=\"Subscription3\">two</p><p>three</p>";
    assert_eq!(page_item_ids(html), Ok(vec![3]));
}

#[test]
fn deeply_nested_page_is_read() {
    let mut html = String::new();
    for id in 0..5000 {
        html.push_str(&format!("<div id=\"Subscription{}\">", id));
    }
    assert_eq!(page_item_ids(&html), Ok((0..5000).collect::<Vec<i64>>()));
}
