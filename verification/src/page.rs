//! The item ids that one page of a subscription listing holds.
//!
//! A listing page marks each subscribed item with an element whose `id`
//! attribute is the word `Subscription` followed by the item's id in decimal
//! digits. Finding those elements in the markup is left to the `scraper`
//! crate; reading the ids out of their attributes is done here.

use crate::decimal::{
    all_digits, chars_of, decimal, lemma_decimal_round_trip, parse_digits_from, read_digits,
    DigitsError,
};
use vstd::prelude::*;
use vstd::string::*;
use vstd::utf8::encode_utf8;

verus! {

/// Why an `id` attribute does not name a subscribed item.
#[derive(Clone, Copy, Debug, PartialEq, Eq, Structural)]
pub enum IdError {
    /// The attribute does not begin with `Subscription`.
    NoPrefix,
    /// Nothing follows the prefix.
    NoDigits,
    /// Something other than a decimal digit follows the prefix.
    NotNumeric,
    /// The digits denote a number that no item id can hold.
    OutOfRange,
}

/// Why a page yields no list of item ids.
#[derive(Clone, Copy, Debug, PartialEq, Eq, Structural)]
pub enum PageError {
    /// The page is longer than what is handed to the markup parser.
    TooLarge,
    /// The markup parser did not accept the selector for subscription elements.
    Selector,
    /// The first selected element whose `id` attribute names no item.
    Id(IdError),
}

/// The word that comes before the digits in the `id` attribute of a
/// subscription element.
pub const ID_PREFIX: &'static str = "Subscription";

/// The CSS selector for the elements that carry a subscription.
pub const SUBSCRIPTION_SELECTOR: &'static str = "[id^='Subscription']";

/// What is said of a page that is too large.
pub const TOO_LARGE_TEXT: &'static str = "the page is too large to be parsed";

/// What is said when the selector is turned down.
pub const SELECTOR_TEXT: &'static str = "the selector for subscription elements was not accepted";

/// What is said of an `id` attribute without the prefix.
pub const NO_PREFIX_TEXT: &'static str = "an element id does not begin with Subscription";

/// What is said of an `id` attribute that ends with the prefix.
pub const NO_DIGITS_TEXT: &'static str = "an element id has no digits after Subscription";

/// What is said of an `id` attribute with something other than digits.
pub const NOT_NUMERIC_TEXT: &'static str =
    "an element id has something other than digits after Subscription";

/// What is said of an `id` attribute whose number is too large.
pub const OUT_OF_RANGE_TEXT: &'static str = "an element id holds a number too large for an item id";

/// The word that comes before the digits in the `id` attribute of a
/// subscription element.
pub open spec fn id_prefix() -> Seq<char> {
    ID_PREFIX@
}

/// The CSS selector for the elements that carry a subscription.
pub open spec fn subscription_selector() -> Seq<char> {
    SUBSCRIPTION_SELECTOR@
}

/// What is said of a page that yields no list of item ids.
pub open spec fn error_text(error: PageError) -> Seq<char> {
    match error {
        PageError::TooLarge => TOO_LARGE_TEXT@,
        PageError::Selector => SELECTOR_TEXT@,
        PageError::Id(IdError::NoPrefix) => NO_PREFIX_TEXT@,
        PageError::Id(IdError::NoDigits) => NO_DIGITS_TEXT@,
        PageError::Id(IdError::NotNumeric) => NOT_NUMERIC_TEXT@,
        PageError::Id(IdError::OutOfRange) => OUT_OF_RANGE_TEXT@,
    }
}

impl PageError {
    /// Says in words why the page yields no list of item ids.
    pub fn message(&self) -> (text: &'static str)
        ensures
            text@ == error_text(*self),
    {
        match self {
            PageError::TooLarge => TOO_LARGE_TEXT,
            PageError::Selector => SELECTOR_TEXT,
            PageError::Id(IdError::NoPrefix) => NO_PREFIX_TEXT,
            PageError::Id(IdError::NoDigits) => NO_DIGITS_TEXT,
            PageError::Id(IdError::NotNumeric) => NOT_NUMERIC_TEXT,
            PageError::Id(IdError::OutOfRange) => OUT_OF_RANGE_TEXT,
        }
    }
}

/// The largest page, in bytes of UTF-8, that is handed to the markup parser.
pub const MAX_PAGE_BYTES: usize = 0x2000_0000;

/// The item id that an `id` attribute names: the prefix, then one or more
/// decimal digits whose value fits an `i64`.
pub open spec fn id_of(attribute: Seq<char>) -> Result<i64, IdError> {
    if !id_prefix().is_prefix_of(attribute) {
        Err(IdError::NoPrefix)
    } else {
        match read_digits(attribute.skip(id_prefix().len() as int), i64::MAX as nat) {
            Ok(value) => Ok(value as i64),
            Err(DigitsError::Empty) => Err(IdError::NoDigits),
            Err(DigitsError::NotDigit) => Err(IdError::NotNumeric),
            Err(DigitsError::TooLarge) => Err(IdError::OutOfRange),
        }
    }
}

/// The item ids that the `id` attributes of a page's selected elements name,
/// in the order of the elements. An element without the attribute names
/// nothing and is passed over; the first attribute that names no item makes
/// the whole page fail.
pub open spec fn ids_of(attributes: Seq<Option<Seq<char>>>) -> Result<Seq<i64>, IdError>
    decreases attributes.len(),
{
    if attributes.len() == 0 {
        Ok(Seq::empty())
    } else {
        match ids_of(attributes.drop_last()) {
            Err(e) => Err(e),
            Ok(ids) => match attributes.last() {
                None => Ok(ids),
                Some(attribute) => match id_of(attribute) {
                    Ok(id) => Ok(ids.push(id)),
                    Err(e) => Err(e),
                },
            },
        }
    }
}

/// Tells whether `chars` begins with `prefix`.
fn starts_with(chars: &Vec<char>, prefix: &Vec<char>) -> (found: bool)
    ensures
        found == prefix@.is_prefix_of(chars@),
{
    if prefix.len() > chars.len() {
        return false;
    }
    let mut i: usize = 0;
    while i < prefix.len()
        invariant
            i <= prefix.len() <= chars.len(),
            prefix@.take(i as int) == chars@.take(i as int),
        decreases prefix.len() - i,
    {
        if prefix[i] != chars[i] {
            return false;
        }
        i = i + 1;
    }
    true
}

/// Reads the item id out of the `id` attribute of a subscription element.
pub fn parse_item_id(attribute: &str) -> (r: Result<i64, IdError>)
    ensures
        r == id_of(attribute@),
{
    let chars = chars_of(attribute);
    let prefix = chars_of(ID_PREFIX);
    if !starts_with(&chars, &prefix) {
        return Err(IdError::NoPrefix);
    }
    match parse_digits_from(&chars, prefix.len(), 0x7fff_ffff_ffff_ffff) {
        Ok(value) => Ok(value as i64),
        Err(DigitsError::Empty) => Err(IdError::NoDigits),
        Err(DigitsError::NotDigit) => Err(IdError::NotNumeric),
        Err(DigitsError::TooLarge) => Err(IdError::OutOfRange),
    }
}

/// Reads the item ids out of the `id` attributes of a page's selected
/// elements, `None` standing for an element without the attribute.
pub fn collect_ids(attributes: &Vec<Option<String>>) -> (r: Result<Vec<i64>, IdError>)
    ensures
        match r {
            Ok(ids) => ids_of(attributes.deep_view()) == Ok::<Seq<i64>, IdError>(ids@),
            Err(e) => ids_of(attributes.deep_view()) == Err::<Seq<i64>, IdError>(e),
        },
{
    let ghost all = attributes.deep_view();
    let mut ids: Vec<i64> = Vec::new();
    let mut i: usize = 0;
    while i < attributes.len()
        invariant
            i <= attributes.len(),
            all == attributes.deep_view(),
            ids_of(all.take(i as int)) == Ok::<Seq<i64>, IdError>(ids@),
        decreases attributes.len() - i,
    {
        assert(all.take(i + 1).drop_last() =~= all.take(i as int));
        match &attributes[i] {
            None => {},
            Some(attribute) => {
                match parse_item_id(attribute.as_str()) {
                    Ok(id) => {
                        ids.push(id);
                    },
                    Err(e) => {
                        proof {
                            lemma_failure_stays(all, i + 1);
                        }
                        return Err(e);
                    },
                }
            },
        }
        i = i + 1;
    }
    assert(all.take(i as int) =~= all);
    Ok(ids)
}

/// Once the first elements of a page fail to give their ids, so does the
/// whole page, and for the same reason.
proof fn lemma_failure_stays(attributes: Seq<Option<Seq<char>>>, k: int)
    requires
        0 <= k <= attributes.len(),
        ids_of(attributes.take(k)) is Err,
    ensures
        ids_of(attributes) == ids_of(attributes.take(k)),
    decreases attributes.len() - k,
{
    if k < attributes.len() {
        assert(attributes.take(k + 1).drop_last() =~= attributes.take(k));
        lemma_failure_stays(attributes, k + 1);
    } else {
        assert(attributes.take(k) =~= attributes);
    }
}

/// The `id` attributes of the elements of `html` that `selector` matches, as
/// the `scraper` crate finds them: `None` where it does not accept the
/// selector, and within the list `None` for an element without the attribute.
pub uninterp spec fn selected_ids(html: Seq<char>, selector: Seq<char>) -> Option<
    Seq<Option<Seq<char>>>,
>;

/// Parses `selector` with `scraper::Selector::parse` and `html` with
/// `scraper::Html::parse_document`, walks the matches of `Html::select` and
/// takes from each what `Element::id` returns.
///
/// Believed, not proved: that the call returns, and that its outcome depends
/// on the two texts alone.
///
/// The selector is the one for subscription elements and no other. It tests
/// one attribute of the element at hand, so matching it looks at no other
/// element, however deep the page nests; a selector with combinators or
/// pseudo-classes would make the matcher descend by its own length or by the
/// depth of the page, without limit.
///
/// The parser keeps text in buffers whose length it counts in 32 bits and
/// which it cannot grow beyond `2^31` bytes: there it stops the program. It
/// writes at most three bytes where the page has one, so a page of at most
/// [`MAX_PAGE_BYTES`] bytes stays within its buffers, and larger pages are
/// kept out.
#[verifier::external_body]
fn select_ids(html: &str, selector: &str) -> (found: Option<Vec<Option<String>>>)
    requires
        encode_utf8(html@).len() <= MAX_PAGE_BYTES,
        selector@ == subscription_selector(),
    ensures
        found.deep_view() == selected_ids(html@, selector@),
{
    let selector = scraper::Selector::parse(selector).ok()?;
    let document = scraper::Html::parse_document(html);
    Some(document.select(&selector).map(|element| element.value().id().map(String::from)).collect())
}

/// The item ids of a listing page, in the order in which its subscription
/// elements are found.
pub open spec fn page_ids(html: Seq<char>) -> Result<Seq<i64>, PageError> {
    if encode_utf8(html).len() > MAX_PAGE_BYTES {
        Err(PageError::TooLarge)
    } else {
        match selected_ids(html, subscription_selector()) {
            None => Err(PageError::Selector),
            Some(attributes) => match ids_of(attributes) {
                Ok(ids) => Ok(ids),
                Err(e) => Err(PageError::Id(e)),
            },
        }
    }
}

/// Extracts the item ids from the markup of a listing page.
pub fn page_item_ids(html: &str) -> (r: Result<Vec<i64>, PageError>)
    ensures
        match r {
            Ok(ids) => page_ids(html@) == Ok::<Seq<i64>, PageError>(ids@),
            Err(e) => page_ids(html@) == Err::<Seq<i64>, PageError>(e),
        },
{
    if html.as_bytes().len() > MAX_PAGE_BYTES {
        return Err(PageError::TooLarge);
    }
    match select_ids(html, SUBSCRIPTION_SELECTOR) {
        None => Err(PageError::Selector),
        Some(attributes) => match collect_ids(&attributes) {
            Ok(ids) => Ok(ids),
            Err(e) => Err(PageError::Id(e)),
        },
    }
}

/// The `id` attribute written for an item reads back as that item: the prefix
/// followed by the decimal notation of an id that is not negative names that
/// id.
pub proof fn lemma_id_round_trip(id: i64)
    requires
        id >= 0,
    ensures
        id_of(id_prefix() + decimal(id as nat)) == Ok::<i64, IdError>(id),
{
    lemma_decimal_round_trip(id as nat);
    let attribute = id_prefix() + decimal(id as nat);
    assert(attribute.skip(id_prefix().len() as int) =~= decimal(id as nat));
}

/// An `id` attribute with anything but decimal digits after the prefix names
/// no item.
pub proof fn lemma_non_numeric_suffix_fails(suffix: Seq<char>)
    requires
        !all_digits(suffix),
    ensures
        id_of(id_prefix() + suffix) == Err::<i64, IdError>(IdError::NotNumeric),
{
    let attribute = id_prefix() + suffix;
    assert(attribute.skip(id_prefix().len() as int) =~= suffix);
}

/// Where every selected element has an `id` attribute that names an item, the
/// page yields those items, one for each element and in the order of the
/// elements.
pub proof fn lemma_ids_in_order(attributes: Seq<Option<Seq<char>>>)
    requires
        forall|i: int|
            0 <= i < attributes.len() ==> (#[trigger] attributes[i]) is Some && id_of(
                attributes[i]->0,
            ) is Ok,
    ensures
        ids_of(attributes) matches Ok(ids) && ids.len() == attributes.len() && forall|i: int|
            0 <= i < attributes.len() ==> Ok::<i64, IdError>(#[trigger] ids[i]) == id_of(
                attributes[i]->0,
            ),
    decreases attributes.len(),
{
    if attributes.len() > 0 {
        lemma_ids_in_order(attributes.drop_last());
    }
}

/// One selected element whose `id` attribute names no item makes the whole
/// page fail.
pub proof fn lemma_bad_id_fails_page(attributes: Seq<Option<Seq<char>>>, k: int)
    requires
        0 <= k < attributes.len(),
        attributes[k] is Some,
        id_of(attributes[k]->0) is Err,
    ensures
        ids_of(attributes) is Err,
    decreases attributes.len(),
{
    if k < attributes.len() - 1 {
        lemma_bad_id_fails_page(attributes.drop_last(), k);
    }
}

} // verus!
