//! The two HTTP requests of a transfer: the one that fetches a page of the
//! source account's subscription listing, and the one that subscribes the
//! destination account to an item.

use crate::decimal::{decimal, decimal_string, signed_decimal, signed_decimal_string};
use vstd::prelude::*;
use vstd::string::*;

verus! {

/// The HTTP method of a request.
#[derive(Clone, Copy, Debug, PartialEq, Eq, Structural)]
pub enum Method {
    Get,
    Post,
}

/// An HTTP request without a body, with its one header.
#[derive(Clone, Debug, PartialEq, Eq)]
pub struct Request {
    pub method: Method,
    pub url: String,
    pub header_name: String,
    pub header_value: String,
}

/// What a [`Request`] says, as plain text.
pub struct RequestView {
    pub method: Method,
    pub url: Seq<char>,
    pub header_name: Seq<char>,
    pub header_value: Seq<char>,
}

impl View for Request {
    type V = RequestView;

    open spec fn view(&self) -> RequestView {
        RequestView {
            method: self.method,
            url: self.url@,
            header_name: self.header_name@,
            header_value: self.header_value@,
        }
    }
}

impl DeepView for Request {
    type V = RequestView;

    open spec fn deep_view(&self) -> RequestView {
        self@
    }
}

/// The address of page `page` of the subscription listing of `username` for
/// the application `app_id`, thirty items to a page.
pub open spec fn listing_url(username: Seq<char>, app_id: int, page: nat) -> Seq<char> {
    "https://steamcommunity.com/id/"@ + username + "/myworkshopfiles/?appid="@ + signed_decimal(
        app_id,
    ) + "&browsefilter=mysubscriptions&p="@ + decimal(page) + "&numperpage=30"@
}

/// The address that subscribes the account of `api_key` to the item `item_id`.
pub open spec fn subscribe_url(api_key: Seq<char>, item_id: int) -> Seq<char> {
    "https://api.steampowered.com/IPublishedFileService/Subscribe/v1/?key="@ + api_key
        + "&publishedfileid="@ + signed_decimal(item_id) + "&list_type=1"@
}

impl RequestView {
    /// The request for one page of a listing: a `GET` that carries the
    /// session cookie as it was given.
    pub open spec fn listing(
        username: Seq<char>,
        app_id: int,
        cookie: Seq<char>,
        page: nat,
    ) -> RequestView {
        RequestView {
            method: Method::Get,
            url: listing_url(username, app_id, page),
            header_name: "cookie"@,
            header_value: cookie,
        }
    }

    /// The request that subscribes to one item: a `POST` that declares a
    /// content length of zero.
    pub open spec fn subscribe(api_key: Seq<char>, item_id: int) -> RequestView {
        RequestView {
            method: Method::Post,
            url: subscribe_url(api_key, item_id),
            header_name: "content-length"@,
            header_value: "0"@,
        }
    }
}

impl Request {
    /// Builds the request for page `page` of the subscription listing of
    /// `username` for the application `app_id`.
    pub fn listing(username: &str, app_id: i64, cookie: &str, page: u128) -> (request: Request)
        ensures
            request@ == RequestView::listing(username@, app_id as int, cookie@, page as nat),
    {
        let mut url = String::from_str("https://steamcommunity.com/id/");
        url.append(username);
        url.append("/myworkshopfiles/?appid=");
        url.append(signed_decimal_string(app_id).as_str());
        url.append("&browsefilter=mysubscriptions&p=");
        url.append(decimal_string(page).as_str());
        url.append("&numperpage=30");
        Request {
            method: Method::Get,
            url,
            header_name: String::from_str("cookie"),
            header_value: String::from_str(cookie),
        }
    }

    /// Builds the request that subscribes the account of `api_key` to the
    /// item `item_id`.
    pub fn subscribe(item_id: i64, api_key: &str) -> (request: Request)
        ensures
            request@ == RequestView::subscribe(api_key@, item_id as int),
    {
        let mut url = String::from_str(
            "https://api.steampowered.com/IPublishedFileService/Subscribe/v1/?key=",
        );
        url.append(api_key);
        url.append("&publishedfileid=");
        url.append(signed_decimal_string(item_id).as_str());
        url.append("&list_type=1");
        Request {
            method: Method::Post,
            url,
            header_name: String::from_str("content-length"),
            header_value: String::from_str("0"),
        }
    }
}

} // verus!
