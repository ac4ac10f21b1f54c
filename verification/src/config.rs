//! What a run is configured with, and what is written in its place when the
//! configuration file is missing.

use vstd::prelude::*;
use vstd::string::*;

verus! {

/// The name of the configuration file, looked for in the working directory.
pub const CONFIG_FILE: &'static str = "data.json";

/// The two ways to come by the items to subscribe to.
#[derive(Clone, Copy, Debug, PartialEq, Eq, Structural)]
pub enum Variant {
    /// The items are read off the subscription listing of a source account.
    Scrape,
    /// The items are given in the configuration.
    Listed,
}

/// The configuration of a run that reads the items off a listing.
#[derive(Clone, Debug, PartialEq, Eq)]
pub struct SteamData {
    /// The Web API key of the receiving account.
    pub web_apikey: String,
    /// The application whose items are transferred.
    pub game_appid: i64,
    /// The session cookie of the sending account.
    pub cookie: String,
    /// The name of the sending account.
    pub username: String,
}

/// The configuration of a run whose items are given.
#[derive(Clone, Debug, PartialEq, Eq)]
pub struct FileList {
    /// The Web API key of the receiving account.
    pub web_apikey: String,
    /// The items to subscribe to, in order.
    pub file_ids: Vec<i64>,
}

/// The configuration of a run, in one of its two shapes.
#[derive(Clone, Debug, PartialEq, Eq)]
pub enum Config {
    Scrape(SteamData),
    Listed(FileList),
}

/// A [`SteamData`], with its texts as plain characters.
pub struct SteamDataView {
    pub web_apikey: Seq<char>,
    pub game_appid: i64,
    pub cookie: Seq<char>,
    pub username: Seq<char>,
}

/// A [`FileList`], with its text as plain characters.
pub struct FileListView {
    pub web_apikey: Seq<char>,
    pub file_ids: Seq<i64>,
}

/// A [`Config`], with its texts as plain characters.
pub enum ConfigView {
    Scrape(SteamDataView),
    Listed(FileListView),
}

impl View for SteamData {
    type V = SteamDataView;

    open spec fn view(&self) -> SteamDataView {
        SteamDataView {
            web_apikey: self.web_apikey@,
            game_appid: self.game_appid,
            cookie: self.cookie@,
            username: self.username@,
        }
    }
}

impl View for FileList {
    type V = FileListView;

    open spec fn view(&self) -> FileListView {
        FileListView { web_apikey: self.web_apikey@, file_ids: self.file_ids@ }
    }
}

impl View for Config {
    type V = ConfigView;

    open spec fn view(&self) -> ConfigView {
        match self {
            Config::Scrape(data) => ConfigView::Scrape(data@),
            Config::Listed(list) => ConfigView::Listed(list@),
        }
    }
}

impl Config {
    /// The variant that the configuration is for.
    pub fn variant(&self) -> (variant: Variant)
        ensures
            variant == self@.variant(),
    {
        match self {
            Config::Scrape(_) => Variant::Scrape,
            Config::Listed(_) => Variant::Listed,
        }
    }
}

impl ConfigView {
    /// The variant that the configuration is for.
    pub open spec fn variant(self) -> Variant {
        match self {
            ConfigView::Scrape(_) => Variant::Scrape,
            ConfigView::Listed(_) => Variant::Listed,
        }
    }
}

/// The configuration file with placeholder values, for a run that reads the
/// items off a listing.
pub const SCRAPE_TEMPLATE: &'static str =
    "{\n  \"web_apikey\": \"PLACE KEY HERE\",\n  \"game_appid\": 0,\n  \"cookie\": \"PLACE COOKIE HERE\",\n  \"username\": \"PLACE USER NAME HERE\"\n}";

/// The configuration file with placeholder values, for a run whose items are
/// given.
pub const LISTED_TEMPLATE: &'static str =
    "{\n  \"web_apikey\": \"PLACE KEY HERE\",\n  \"file_ids\": []\n}";

/// What to put into the configuration file of a run that reads the items off
/// a listing.
pub const SCRAPE_INSTRUCTIONS: &'static str =
    "Data input file not found, please place\n1.web_apikey of the receiving account\n2.appid of the game to be transferred\n3.cookie of the sending account (focus on steamLoginSecure)\n4.username of the sending account\nin data.json.\nAn example data.json file has been generated";

/// What to put into the configuration file of a run whose items are given.
pub const LISTED_INSTRUCTIONS: &'static str =
    "Data input file not found, please place\n1.web_apikey of the receiving account\n2.file_ids of the items to be subscribed\nin data.json.\nAn example data.json file has been generated";

/// What the operator is told when the configuration file is there.
pub const FOUND_LINE: &'static str = "data.json file found. Proceeding";

/// The configuration file that is written where none is found: every field
/// of the variant's configuration, each with a value to be replaced.
pub open spec fn template(variant: Variant) -> Seq<char> {
    match variant {
        Variant::Scrape => SCRAPE_TEMPLATE@,
        Variant::Listed => LISTED_TEMPLATE@,
    }
}

/// What the operator is told when the configuration file was missing.
pub open spec fn instructions(variant: Variant) -> Seq<char> {
    match variant {
        Variant::Scrape => SCRAPE_INSTRUCTIONS@,
        Variant::Listed => LISTED_INSTRUCTIONS@,
    }
}

/// Writes out the configuration file for `variant` with placeholder values.
pub fn template_text(variant: Variant) -> (text: String)
    ensures
        text@ == template(variant),
{
    match variant {
        Variant::Scrape => String::from_str(SCRAPE_TEMPLATE),
        Variant::Listed => String::from_str(LISTED_TEMPLATE),
    }
}

/// Writes out what the operator is told when the configuration file was
/// missing.
pub fn instructions_text(variant: Variant) -> (text: String)
    ensures
        text@ == instructions(variant),
{
    match variant {
        Variant::Scrape => String::from_str(SCRAPE_INSTRUCTIONS),
        Variant::Listed => String::from_str(LISTED_INSTRUCTIONS),
    }
}

} // verus!
