//! The metadata record returned by one fetch.

use vstd::prelude::*;

verus! {

/// The single data entity of the bridge: one decoded response from the
/// external script.  Every field is independently optional; the record
/// is produced once, by decoding the script's standard output, and is
/// returned to the caller unchanged.
#[derive(Debug, Clone)]
pub struct YtDlpResult {
    pub song_name: Option<String>,
    pub artist: Option<String>,
    pub icon_url: Option<String>,
    pub language_fetched: Option<String>,
    pub lyrics: Option<String>,
    pub error: Option<String>,
}

/// Mathematical view of a [`YtDlpResult`]: each optional string field
/// as an optional sequence of characters.
pub ghost struct YtDlpResultView {
    pub song_name: Option<Seq<char>>,
    pub artist: Option<Seq<char>>,
    pub icon_url: Option<Seq<char>>,
    pub language_fetched: Option<Seq<char>>,
    pub lyrics: Option<Seq<char>>,
    pub error: Option<Seq<char>>,
}

/// View of one optional string field.
pub open spec fn opt_str_view(o: Option<String>) -> Option<Seq<char>> {
    match o {
        Option::Some(s) => Option::Some(s@),
        Option::None => Option::None,
    }
}

impl View for YtDlpResult {
    type V = YtDlpResultView;

    open spec fn view(&self) -> YtDlpResultView {
        YtDlpResultView {
            song_name: opt_str_view(self.song_name),
            artist: opt_str_view(self.artist),
            icon_url: opt_str_view(self.icon_url),
            language_fetched: opt_str_view(self.language_fetched),
            lyrics: opt_str_view(self.lyrics),
            error: opt_str_view(self.error),
        }
    }
}

} // verus!
