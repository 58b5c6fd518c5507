//! The currently playing track: what is read from the endpoint's answer, the
//! snapshot that is shown, and the comparison that decides on a new render.
use vstd::prelude::*;
use vstd::string::*;
use vstd::utf8::*;
use crate::bounded::{row_as_str, row_bytes, row_eq, row_new, row_push_str, ROW_BYTES};

verus! {

/// Where the current track is asked for.
pub const CURRENTLY_PLAYING_ENDPOINT: &'static str =
    "https://api.spotify.com/v1/me/player/currently-playing";

/// Number of characters of a title or an artist's name that are kept.
pub const ROW_CHARS: usize = 40;

/// One artist of a track.
#[derive(Clone, Copy, Default)]
pub struct CurrentPlayingTrackArtist<'a> {
    pub name: &'a str,
}

/// The track in the endpoint's answer.
pub struct CurrentPlayingTrackItem<'a> {
    pub name: &'a str,
    pub artists: heapless::Vec<CurrentPlayingTrackArtist<'a>, 6>,
}

/// The endpoint's answer, as far as it is read.
pub struct CurrentPlayingTrackResponse<'a> {
    pub item: CurrentPlayingTrackItem<'a>,
}

/// Title and first artist of a track, each cut to one display row.
pub struct TrackSnapshot {
    title: heapless::String<40>,
    artist: heapless::String<40>,
}

/// Why an answer of the endpoint gives no snapshot.
#[derive(Clone, Copy, Debug, PartialEq, Eq, Structural)]
pub enum PollError {
    /// The first 40 characters of the title take more than 40 bytes.
    TitleOverflow,
    /// The first 40 characters of the artist's name take more than 40 bytes.
    ArtistOverflow,
}

/// The first `n` characters of `s`; all of `s` where it has no more.
pub open spec fn first_chars(s: Seq<char>, n: nat) -> Seq<char> {
    if s.len() <= n {
        s
    } else {
        s.take(n as int)
    }
}

/// The bytes of one display row for `text`.
pub open spec fn row_text(text: Seq<char>) -> Seq<u8> {
    encode_utf8(first_chars(text, ROW_CHARS as nat))
}

/// The names of the artists in a list, in its order.
pub uninterp spec fn artist_names(artists: heapless::Vec<CurrentPlayingTrackArtist, 6>) -> Seq<
    Seq<char>,
>;

/// `first` of the slice that a `heapless::Vec` holds: its first artist, or
/// `None` where the list is empty.
#[verifier::external_body]
fn first_of<'a>(artists: &heapless::Vec<CurrentPlayingTrackArtist<'a>, 6>) -> (r: Option<
    CurrentPlayingTrackArtist<'a>,
>)
    ensures
        r is None <==> artist_names(*artists).len() == 0,
        r matches Some(a) ==> a.name@ == artist_names(*artists)[0],
{
    match artists.first() {
        Some(a) => Some(*a),
        None => None,
    }
}

/// The name of the first artist; empty where the track names none.
pub open spec fn first_artist(names: Seq<Seq<char>>) -> Seq<char> {
    if names.len() == 0 {
        Seq::empty()
    } else {
        names[0]
    }
}

/// `prev` and `curr` differ in title or artist, byte for byte.
pub open spec fn differs(prev: &TrackSnapshot, curr: &TrackSnapshot) -> bool {
    prev.title() != curr.title() || prev.artist() != curr.artist()
}

impl TrackSnapshot {
    /// The bytes of the title.
    pub closed spec fn title(&self) -> Seq<u8> {
        row_bytes(self.title)
    }

    /// The bytes of the artist's name.
    pub closed spec fn artist(&self) -> Seq<u8> {
        row_bytes(self.artist)
    }

    /// The snapshot of a display that shows nothing.
    pub fn empty() -> (s: TrackSnapshot)
        ensures
            s.title() == Seq::<u8>::empty(),
            s.artist() == Seq::<u8>::empty(),
    {
        TrackSnapshot { title: row_new(), artist: row_new() }
    }

    /// The snapshot of a track with this title and this artist, each cut to its
    /// first 40 characters. Fails where such a cut takes more than 40 bytes.
    pub fn new(title: &str, artist: &str) -> (r: Result<TrackSnapshot, PollError>)
        ensures
            r is Ok <==> row_text(title@).len() <= ROW_BYTES && row_text(artist@).len()
                <= ROW_BYTES,
            r matches Ok(s) ==> s.title() == row_text(title@) && s.artist() == row_text(artist@),
            r == Err::<TrackSnapshot, PollError>(PollError::TitleOverflow) <==> row_text(
                title@,
            ).len() > ROW_BYTES,
    {
        let mut t = row_new();
        let mut a = row_new();
        match row_push_str(&mut t, truncate_chars(title, ROW_CHARS)) {
            Ok(()) => {},
            Err(_) => {
                return Err(PollError::TitleOverflow);
            },
        }
        match row_push_str(&mut a, truncate_chars(artist, ROW_CHARS)) {
            Ok(()) => {},
            Err(_) => {
                return Err(PollError::ArtistOverflow);
            },
        }
        assert(row_bytes(t) =~= row_text(title@));
        assert(row_bytes(a) =~= row_text(artist@));
        Ok(TrackSnapshot { title: t, artist: a })
    }

    /// The title.
    pub fn title_str(&self) -> (r: &str)
        ensures
            r.spec_bytes() == self.title(),
            r.spec_bytes().len() <= ROW_BYTES,
    {
        row_as_str(&self.title)
    }

    /// The artist's name.
    pub fn artist_str(&self) -> (r: &str)
        ensures
            r.spec_bytes() == self.artist(),
            r.spec_bytes().len() <= ROW_BYTES,
    {
        row_as_str(&self.artist)
    }
}

/// The first `n` characters of `s`, counted as characters, not bytes.
pub fn truncate_chars(s: &str, n: usize) -> (r: &str)
    ensures
        r@ == first_chars(s@, n as nat),
{
    let len: usize = s.unicode_len();
    if len <= n {
        s
    } else {
        let r = s.substring_char(0, n);
        assert(s@.subrange(0, n as int) =~= s@.take(n as int));
        r
    }
}

/// Whether the display has to be rendered anew: `true` unless title and artist
/// are both byte-identical to those of the snapshot shown before.
pub fn changed(prev: &TrackSnapshot, curr: &TrackSnapshot) -> (r: bool)
    ensures
        r == differs(prev, curr),
{
    !row_eq(&prev.title, &curr.title) || !row_eq(&prev.artist, &curr.artist)
}

/// Makes the snapshot from the endpoint's answer: the track's name and the name
/// of its first artist, or an empty name where it has no artist.
pub fn get_current_song(response: &CurrentPlayingTrackResponse) -> (r: Result<
    TrackSnapshot,
    PollError,
>)
    ensures
        r is Ok <==> row_text(response.item.name@).len() <= ROW_BYTES && row_text(
            first_artist(artist_names(response.item.artists)),
        ).len() <= ROW_BYTES,
        r matches Ok(s) ==> s.title() == row_text(response.item.name@) && s.artist() == row_text(
            first_artist(artist_names(response.item.artists)),
        ),
        r == Err::<TrackSnapshot, PollError>(PollError::TitleOverflow) <==> row_text(
            response.item.name@,
        ).len() > ROW_BYTES,
{
    match first_of(&response.item.artists) {
        Some(artist) => TrackSnapshot::new(response.item.name, artist.name),
        None => {
            proof {
                reveal_strlit("");
                assert(""@ =~= Seq::<char>::empty());
            }
            TrackSnapshot::new(response.item.name, "")
        },
    }
}

/// A render is suppressed exactly where both fields are unchanged; a
/// difference in either one alone asks for a render.
pub proof fn lemma_render_iff_changed(prev: &TrackSnapshot, curr: &TrackSnapshot)
    ensures
        !differs(prev, curr) <==> prev.title() == curr.title() && prev.artist() == curr.artist(),
        prev.title() != curr.title() ==> differs(prev, curr),
        prev.artist() != curr.artist() ==> differs(prev, curr),
        !differs(prev, prev),
{
}

/// A row keeps at most 40 characters, the first ones, and an ASCII text of up
/// to 40 characters whole, one byte for each.
pub proof fn lemma_row_text(text: Seq<char>)
    ensures
        first_chars(text, ROW_CHARS as nat).len() <= ROW_CHARS,
        first_chars(text, ROW_CHARS as nat) == text.take(first_chars(text, ROW_CHARS as nat).len() as int),
        is_ascii_chars(text) ==> row_text(text).len() == first_chars(text, ROW_CHARS as nat).len(),
{
    let cut = first_chars(text, ROW_CHARS as nat);
    assert(cut =~= text.take(cut.len() as int));
    if is_ascii_chars(text) {
        assert(is_ascii_chars(cut));
        is_ascii_chars_encode_utf8(cut);
    }
}

} // verus!
