use workshop_transfer::lister::Lister;
use workshop_transfer::page::{IdError, PageError};
use workshop_transfer::request::Method;

fn fresh() -> Lister {
    Lister::new("alice".to_string(), 294100, "steamLoginSecure=abc".to_string())
}

fn page_of(ids: &[i64]) -> String {
    let mut html = String::from("<html><body><div class=\"workshopBrowseItems\">");
    for id in ids {
        html.push_str(&format!("<div id=\"Subscription{}\" class=\"item\"></div>", id));
    }
    html.push_str("</div></body></html>");
    html
}

#[test]
fn fresh_listing_asks_for_the_first_page() {
    let lister = fresh();
    assert!(!lister.is_done());
    assert_eq!(lister.page(), 1);
    assert!(lister.ids().is_empty());
    let request = lister.request().unwrap();
    assert_eq!(request.method, Method::Get);
    assert_eq!(
        request.url,
        "https://steamcommunity.com/id/alice/myworkshopfiles/?appid=294100&browsefilter=mysubscriptions&p=1&numperpage=30"
    );
    assert_eq!(request.header_name, "cookie");
    assert_eq!(request.header_value, "steamLoginSecure=abc");
}

#[test]
fn listing_of_three_pages_gathers_two() {
    let pages = [page_of(&[111, 222]), page_of(&[333]), page_of(&[])];
    let mut lister = fresh();
    let mut requests = 0;
    let mut lines = Vec::new();
    while let Some(request) = lister.request() {
        requests += 1;
        assert!(request.url.contains(&format!("&p={}&", requests)));
        let (next, line) = lister.accept_page(&pages[requests - 1]).unwrap();
        lister = next;
        lines.push(line.unwrap());
    }
    assert_eq!(requests, 3);
    assert!(lister.is_done());
    assert_eq!(lister.ids(), &vec![111, 222, 333]);
    assert_eq!(
        lines,
        vec![
            "Page 1 done.  2 items collected",
            "Page 2 done.  3 items collected",
            "All pages done. Total 3 items collected",
        ]
    );
    assert_eq!(lister.into_ids(), vec![111, 222, 333]);
}

#[test]
fn empty_first_page_ends_the_listing_at_once() {
    let (lister, line) = fresh().accept_page(&page_of(&[])).unwrap();
    assert!(lister.is_done());
    assert!(lister.request().is_none());
    assert_eq!(lister.page(), 1);
    assert!(lister.ids().is_empty());
    assert_eq!(line.unwrap(), "All pages done. Total 0 items collected");
}

#[test]
fn empty_page_leaves_what_was_gathered() {
    let (lister, _) = fresh().accept_ids(vec![5, 6]);
    let (lister, _) = lister.accept_ids(vec![7]);
    assert_eq!(lister.page(), 3);
    let (lister, line) = lister.accept_page("<html></html>").unwrap();
    assert!(lister.is_done());
    assert_eq!(lister.ids(), &vec![5, 6, 7]);
    assert_eq!(lister.page(), 3);
    assert_eq!(line.unwrap(), "All pages done. Total 3 items collected");
}

#[test]
fn repeated_empty_pages_change_nothing() {
    let (lister, _) = fresh().accept_ids(vec![5, 6]);
    let (lister, _) = lister.accept_page(&page_of(&[])).unwrap();
    let (lister, line) = lister.accept_page(&page_of(&[])).unwrap();
    assert!(line.is_none());
    let (lister, line) = lister.accept_ids(Vec::new());
    assert!(line.is_none());
    assert!(lister.is_done());
    assert_eq!(lister.page(), 2);
    assert_eq!(lister.ids(), &vec![5, 6]);
}

#[test]
fn finished_listing_takes_no_further_page() {
    let (lister, _) = fresh().accept_ids(vec![1]);
    let (lister, _) = lister.accept_ids(Vec::new());
    let (lister, line) = lister.accept_ids(vec![2, 3]);
    assert!(line.is_none());
    assert_eq!(lister.ids(), &vec![1]);
    let (lister, line) = lister.accept_page("<div id=\"Subscriptionx\"></div>").unwrap();
    assert!(line.is_none());
    assert!(lister.is_done());
    assert_eq!(lister.ids(), &vec![1]);
}

#[test]
fn page_with_items_moves_to_the_next_page() {
    let (lister, line) = fresh().accept_ids(vec![10, 20, 30]);
    assert!(!lister.is_done());
    assert_eq!(lister.page(), 2);
    assert_eq!(lister.ids(), &vec![10, 20, 30]);
    assert_eq!(line.unwrap(), "Page 1 done.  3 items collected");
    let request = lister.request().unwrap();
    assert_eq!(
        request.url,
        "https://steamcommunity.com/id/alice/myworkshopfiles/?appid=294100&browsefilter=mysubscriptions&p=2&numperpage=30"
    );
}

#[test]
fn repeated_items_are_kept() {
    let (lister, _) = fresh().accept_ids(vec![4, 4]);
    let (lister, line) = lister.accept_ids(vec![4]);
    assert_eq!(lister.ids(), &vec![4, 4, 4]);
    assert_eq!(line.unwrap(), "Page 2 done.  3 items collected");
}

#[test]
fn page_that_cannot_be_read_ends_the_listing_with_the_reason() {
    let (lister, _) = fresh().accept_ids(vec![1]);
    let broken = "<div id=\"Subscription2\"></div><div id=\"Subscription2b\"></div>";
    assert_eq!(
        lister.accept_page(broken).err(),
        Some(PageError::Id(IdError::NotNumeric))
    );
}
