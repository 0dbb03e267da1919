//! Items shown by the browsing panes and their display lines.
//!
//! Directory listings mix directories and songs; the panes render them as
//! plain label/value lines. Terminal styling is the host's concern: the
//! library only decides what text each line carries.

use vstd::prelude::*;

use crate::search::{is_substring_of, lower_of, lowercase, str_contains, MatchesSearch};

verus! {

/// One line of preview or browser text: a label and its content.
#[derive(Clone, Debug)]
pub struct DisplayLine {
    pub key: String,
    pub value: String,
}

/// The decimal digits of `n`, most significant first.
pub open spec fn dec_str(n: nat) -> Seq<char>
    decreases n,
{
    if n < 10 {
        seq![digit_char(n)]
    } else {
        dec_str(n / 10) + seq![digit_char(n % 10)]
    }
}

/// The character for one decimal digit.
pub open spec fn digit_char(d: nat) -> char {
    if d == 0 {
        '0'
    } else if d == 1 {
        '1'
    } else if d == 2 {
        '2'
    } else if d == 3 {
        '3'
    } else if d == 4 {
        '4'
    } else if d == 5 {
        '5'
    } else if d == 6 {
        '6'
    } else if d == 7 {
        '7'
    } else if d == 8 {
        '8'
    } else {
        '9'
    }
}

fn digit_str(d: u64) -> (r: &'static str)
    requires
        d < 10,
    ensures
        r@ =~= seq![digit_char(d as nat)],
{
    proof {
        reveal_strlit("0");
        reveal_strlit("1");
        reveal_strlit("2");
        reveal_strlit("3");
        reveal_strlit("4");
        reveal_strlit("5");
        reveal_strlit("6");
        reveal_strlit("7");
        reveal_strlit("8");
        reveal_strlit("9");
    }
    if d == 0 {
        "0"
    } else if d == 1 {
        "1"
    } else if d == 2 {
        "2"
    } else if d == 3 {
        "3"
    } else if d == 4 {
        "4"
    } else if d == 5 {
        "5"
    } else if d == 6 {
        "6"
    } else if d == 7 {
        "7"
    } else if d == 8 {
        "8"
    } else {
        "9"
    }
}

/// Render `n` in decimal.
pub fn u64_to_string(n: u64) -> (r: String)
    ensures
        r@ == dec_str(n as nat),
    decreases n,
{
    if n < 10 {
        let mut s = String::new();
        s.append(digit_str(n));
        proof {
            assert(s@ =~= dec_str(n as nat));
        }
        s
    } else {
        let mut s = u64_to_string(n / 10);
        s.append(digit_str(n % 10));
        proof {
            assert(s@ =~= dec_str(n as nat));
        }
        s
    }
}

/// An entry of a flattened directory listing: a directory name or a song
/// title.
#[derive(Debug)]
pub enum DirOrSong {
    Dir(String),
    Song(String),
}

/// The text a listing entry is displayed and matched by.
pub open spec fn dir_or_song_text(v: DirOrSong) -> Seq<char> {
    match v {
        DirOrSong::Dir(d) => d@,
        DirOrSong::Song(s) => s@,
    }
}

impl DirOrSong {
    /// The name this entry contributes to a path or queue command.
    pub fn to_current_value(&self) -> (r: &str)
        ensures
            r@ == dir_or_song_text(*self),
    {
        match self {
            DirOrSong::Dir(d) => d.as_str(),
            DirOrSong::Song(s) => s.as_str(),
        }
    }
}

impl MatchesSearch for DirOrSong {
    open spec fn spec_matches(&self, filter: Seq<char>, ignorecase: bool) -> bool {
        if ignorecase {
            is_substring_of(lower_of(filter), lower_of(dir_or_song_text(*self)))
        } else {
            is_substring_of(filter, dir_or_song_text(*self))
        }
    }

    fn matches(&self, filter: &str, ignorecase: bool) -> (r: bool) {
        let text = self.to_current_value();
        if ignorecase {
            let folded_text = lowercase(text);
            let folded_filter = lowercase(filter);
            str_contains(folded_text.as_str(), folded_filter.as_str())
        } else {
            str_contains(text, filter)
        }
    }
}

/// A song as the panes see it: a plain snapshot of its queue id, file and
/// tags.
#[derive(Clone, Debug)]
pub struct Song {
    pub id: u32,
    pub file: String,
    pub title: Option<String>,
    pub artist: Option<String>,
    pub album: Option<String>,
    pub duration_secs: Option<u64>,
    pub others: Vec<(String, String)>,
}

/// The display title of a song: its title tag, or "Untitled".
pub open spec fn song_title_text(s: Song) -> Seq<char> {
    match s.title {
        Some(t) => t@,
        None => "Untitled"@,
    }
}

/// The display artist of a song: its artist tag, or "Untitled".
pub open spec fn song_artist_text(s: Song) -> Seq<char> {
    match s.artist {
        Some(a) => a@,
        None => "Untitled"@,
    }
}

/// Both songs carry the same data in every tag field.
pub open spec fn song_eq(a: Song, b: Song) -> bool {
    &&& a.id == b.id
    &&& a.file@ == b.file@
    &&& match (a.title, b.title) {
        (Some(x), Some(y)) => x@ == y@,
        (None, None) => true,
        _ => false,
    }
    &&& match (a.artist, b.artist) {
        (Some(x), Some(y)) => x@ == y@,
        (None, None) => true,
        _ => false,
    }
    &&& match (a.album, b.album) {
        (Some(x), Some(y)) => x@ == y@,
        (None, None) => true,
        _ => false,
    }
    &&& a.duration_secs == b.duration_secs
}

/// Copy a song field by field.
pub fn duplicate_song(song: &Song) -> (r: Song)
    ensures
        song_eq(r, *song),
{
    Song {
        id: song.id,
        file: song.file.clone(),
        title: match &song.title {
            Some(t) => Some(t.clone()),
            None => None,
        },
        artist: match &song.artist {
            Some(a) => Some(a.clone()),
            None => None,
        },
        album: match &song.album {
            Some(a) => Some(a.clone()),
            None => None,
        },
        duration_secs: song.duration_secs,
        others: Vec::new(),
    }
}

/// Fallback display strings for songs with missing tags.
pub trait SongExt {
    /// The title to display.
    fn title_str(&self) -> &str;

    /// The artist to display.
    fn artist_str(&self) -> &str;
}

impl SongExt for Song {
    fn title_str(&self) -> (r: &str)
        ensures
            r@ == song_title_text(*self),
    {
        match &self.title {
            Some(t) => t.as_str(),
            None => "Untitled",
        }
    }

    fn artist_str(&self) -> (r: &str)
        ensures
            r@ == song_artist_text(*self),
    {
        match &self.artist {
            Some(a) => a.as_str(),
            None => "Untitled",
        }
    }
}

impl MatchesSearch for Song {
    /// A song is matched by its display title.
    open spec fn spec_matches(&self, filter: Seq<char>, ignorecase: bool) -> bool {
        if ignorecase {
            is_substring_of(lower_of(filter), lower_of(song_title_text(*self)))
        } else {
            is_substring_of(filter, song_title_text(*self))
        }
    }

    fn matches(&self, filter: &str, ignorecase: bool) -> (r: bool) {
        let text = self.title_str();
        if ignorecase {
            let folded_text = lowercase(text);
            let folded_filter = lowercase(filter);
            str_contains(folded_text.as_str(), folded_filter.as_str())
        } else {
            str_contains(text, filter)
        }
    }
}

/// An entry of a directory listing that keeps the full song record.
#[derive(Debug)]
pub enum DirOrSongInfo {
    Dir(String),
    Song(Song),
}

/// The text a listing entry is displayed and matched by: the directory
/// name, or the song's display title.
pub open spec fn dir_or_song_info_text(v: DirOrSongInfo) -> Seq<char> {
    match v {
        DirOrSongInfo::Dir(d) => d@,
        DirOrSongInfo::Song(s) => song_title_text(s),
    }
}

impl MatchesSearch for DirOrSongInfo {
    open spec fn spec_matches(&self, filter: Seq<char>, ignorecase: bool) -> bool {
        if ignorecase {
            is_substring_of(lower_of(filter), lower_of(dir_or_song_info_text(*self)))
        } else {
            is_substring_of(filter, dir_or_song_info_text(*self))
        }
    }

    fn matches(&self, filter: &str, ignorecase: bool) -> (r: bool) {
        let text = match self {
            DirOrSongInfo::Dir(d) => d.as_str(),
            DirOrSongInfo::Song(s) => s.title_str(),
        };
        if ignorecase {
            let folded_text = lowercase(text);
            let folded_filter = lowercase(filter);
            str_contains(folded_text.as_str(), folded_filter.as_str())
        } else {
            str_contains(text, filter)
        }
    }
}

/// The symbols the browser prefixes entries with.
#[derive(Clone, Debug)]
pub struct SymbolsConfig {
    pub dir: String,
    pub song: String,
}

/// Conversion of pane data to display lines.
pub trait ToListItems {
    /// The lines this value is rendered as.
    fn to_listitems(&self, symbols: &SymbolsConfig) -> Vec<DisplayLine>;
}

/// The tag lines of a song's detail view: title, artist, album and
/// duration, then any further tags in order.
pub open spec fn song_tag_lines(lines: Seq<DisplayLine>, s: Song) -> bool {
    &&& lines.len() == 4 + s.others@.len()
    &&& lines[0].key@ == "Title"@ && lines[0].value@ == song_title_text(s)
    &&& lines[1].key@ == "Artist"@ && lines[1].value@ == song_artist_text(s)
    &&& lines[2].key@ == "Album"@ && lines[2].value@ == (match s.album {
        Some(a) => a@,
        None => "Unknown"@,
    })
    &&& lines[3].key@ == "Duration"@ && lines[3].value@ == (match s.duration_secs {
        Some(d) => dec_str(d as nat),
        None => "-"@,
    })
    &&& forall|k: int|
        0 <= k < s.others@.len() ==> (#[trigger] lines[4 + k]).key@ == s.others@[k].0@ && lines[4
            + k].value@ == s.others@[k].1@
}

impl ToListItems for Song {
    /// One line per tag of the song: title, artist, album and duration,
    /// then any further tags in order.
    fn to_listitems(&self, symbols: &SymbolsConfig) -> (r: Vec<DisplayLine>)
        ensures
            song_tag_lines(r@, *self),
    {
        let mut r: Vec<DisplayLine> = Vec::new();
        let title = match &self.title {
            Some(t) => t.clone(),
            None => String::from_str("Untitled"),
        };
        let artist = match &self.artist {
            Some(a) => a.clone(),
            None => String::from_str("Untitled"),
        };
        let album = match &self.album {
            Some(a) => a.clone(),
            None => String::from_str("Unknown"),
        };
        let duration = match self.duration_secs {
            Some(d) => u64_to_string(d),
            None => String::from_str("-"),
        };
        r.push(DisplayLine { key: String::from_str("Title"), value: title });
        r.push(DisplayLine { key: String::from_str("Artist"), value: artist });
        r.push(DisplayLine { key: String::from_str("Album"), value: album });
        r.push(DisplayLine { key: String::from_str("Duration"), value: duration });
        let mut k: usize = 0;
        while k < self.others.len()
            invariant
                k <= self.others@.len(),
                r@.len() == 4 + k,
                r@[0].key@ == "Title"@ && r@[0].value@ == song_title_text(*self),
                r@[1].key@ == "Artist"@ && r@[1].value@ == song_artist_text(*self),
                r@[2].key@ == "Album"@ && r@[2].value@ == (match self.album {
                    Some(a) => a@,
                    None => "Unknown"@,
                }),
                r@[3].key@ == "Duration"@ && r@[3].value@ == (match self.duration_secs {
                    Some(d) => dec_str(d as nat),
                    None => "-"@,
                }),
                forall|u: int|
                    0 <= u < k ==> (#[trigger] r@[4 + u]).key@ == self.others@[u].0@ && r@[4
                        + u].value@ == self.others@[u].1@,
            decreases self.others@.len() - k,
        {
            let pair = &self.others[k];
            r.push(DisplayLine { key: pair.0.clone(), value: pair.1.clone() });
            k += 1;
        }
        r
    }
}

impl ToListItems for Vec<DirOrSong> {
    /// One line per entry: the directory or song symbol and the entry's
    /// text.
    fn to_listitems(&self, symbols: &SymbolsConfig) -> (r: Vec<DisplayLine>)
        ensures
            r@.len() == self@.len(),
            forall|k: int|
                0 <= k < self@.len() ==> (#[trigger] r@[k]).key@ == (match self@[k] {
                    DirOrSong::Dir(_) => symbols.dir@,
                    DirOrSong::Song(_) => symbols.song@,
                }) && r@[k].value@ == dir_or_song_text(self@[k]),
    {
        let mut r: Vec<DisplayLine> = Vec::new();
        let mut k: usize = 0;
        while k < self.len()
            invariant
                k <= self@.len(),
                r@.len() == k,
                forall|u: int|
                    0 <= u < k ==> (#[trigger] r@[u]).key@ == (match self@[u] {
                        DirOrSong::Dir(_) => symbols.dir@,
                        DirOrSong::Song(_) => symbols.song@,
                    }) && r@[u].value@ == dir_or_song_text(self@[u]),
            decreases self@.len() - k,
        {
            let line = match &self[k] {
                DirOrSong::Dir(d) => DisplayLine { key: symbols.dir.clone(), value: d.clone() },
                DirOrSong::Song(s) => DisplayLine { key: symbols.song.clone(), value: s.clone() },
            };
            r.push(line);
            k += 1;
        }
        r
    }
}

impl ToListItems for Vec<DirOrSongInfo> {
    /// One line per entry: the directory or song symbol and the entry's
    /// display text.
    fn to_listitems(&self, symbols: &SymbolsConfig) -> (r: Vec<DisplayLine>)
        ensures
            r@.len() == self@.len(),
            forall|k: int|
                0 <= k < self@.len() ==> (#[trigger] r@[k]).key@ == (match self@[k] {
                    DirOrSongInfo::Dir(_) => symbols.dir@,
                    DirOrSongInfo::Song(_) => symbols.song@,
                }) && r@[k].value@ == dir_or_song_info_text(self@[k]),
    {
        let mut r: Vec<DisplayLine> = Vec::new();
        let mut k: usize = 0;
        while k < self.len()
            invariant
                k <= self@.len(),
                r@.len() == k,
                forall|u: int|
                    0 <= u < k ==> (#[trigger] r@[u]).key@ == (match self@[u] {
                        DirOrSongInfo::Dir(_) => symbols.dir@,
                        DirOrSongInfo::Song(_) => symbols.song@,
                    }) && r@[u].value@ == dir_or_song_info_text(self@[u]),
            decreases self@.len() - k,
        {
            let line = match &self[k] {
                DirOrSongInfo::Dir(d) => DisplayLine {
                    key: symbols.dir.clone(),
                    value: d.clone(),
                },
                DirOrSongInfo::Song(s) => DisplayLine {
                    key: symbols.song.clone(),
                    value: match &s.title {
                        Some(t) => t.clone(),
                        None => String::from_str("Untitled"),
                    },
                },
            };
            r.push(line);
            k += 1;
        }
        r
    }
}

/// Lexicographic order on character sequences, by code point.
pub open spec fn text_le(a: Seq<char>, b: Seq<char>) -> bool
    decreases a.len(),
{
    if a.len() == 0 {
        true
    } else if b.len() == 0 {
        false
    } else if (a[0] as u32) < (b[0] as u32) {
        true
    } else if (a[0] as u32) > (b[0] as u32) {
        false
    } else {
        text_le(a.skip(1), b.skip(1))
    }
}

/// Compare two strings in the listing order.
pub fn str_le(a: &str, b: &str) -> (r: bool)
    ensures
        r == text_le(a@, b@),
{
    let a_len = a.unicode_len();
    let b_len = b.unicode_len();
    proof {
        assert(a@.skip(0) =~= a@);
        assert(b@.skip(0) =~= b@);
    }
    let mut i: usize = 0;
    while i < a_len && i < b_len
        invariant
            a_len == a@.len(),
            b_len == b@.len(),
            i <= a_len,
            i <= b_len,
            text_le(a@, b@) == text_le(a@.skip(i as int), b@.skip(i as int)),
        decreases a_len - i,
    {
        let ca = a.get_char(i) as u32;
        let cb = b.get_char(i) as u32;
        proof {
            assert(a@.skip(i as int)[0] == a@[i as int]);
            assert(b@.skip(i as int)[0] == b@[i as int]);
        }
        if ca < cb {
            return true;
        }
        if ca > cb {
            return false;
        }
        proof {
            assert(a@.skip(i as int).skip(1) =~= a@.skip(i + 1));
            assert(b@.skip(i as int).skip(1) =~= b@.skip(i + 1));
        }
        i += 1;
    }
    proof {
        if i >= a_len {
            assert(a@.skip(i as int).len() == 0);
        } else {
            assert(b@.skip(i as int).len() == 0);
            assert(a@.skip(i as int).len() > 0);
        }
    }
    i >= a_len
}

/// One of two strings always precedes the other in the listing order.
proof fn lemma_text_le_total(a: Seq<char>, b: Seq<char>)
    ensures
        text_le(a, b) || text_le(b, a),
    decreases a.len(),
{
    if a.len() > 0 && b.len() > 0 && (a[0] as u32) == (b[0] as u32) {
        lemma_text_le_total(a.skip(1), b.skip(1));
    }
}

/// Where a listing entry sorts: directories come before songs.
pub open spec fn entry_rank(e: DirOrSongInfo) -> int {
    match e {
        DirOrSongInfo::Dir(_) => 0,
        DirOrSongInfo::Song(_) => 1,
    }
}

/// The browser's listing order: directories before songs, each group by
/// its display text.
pub open spec fn listing_le(a: DirOrSongInfo, b: DirOrSongInfo) -> bool {
    ||| entry_rank(a) < entry_rank(b)
    ||| (entry_rank(a) == entry_rank(b) && text_le(
        dir_or_song_info_text(a),
        dir_or_song_info_text(b),
    ))
}

/// Three-way comparison in the listing order: negative when `a` comes
/// first, positive when `b` does, zero when neither must.
pub fn listing_cmp(a: &DirOrSongInfo, b: &DirOrSongInfo) -> (r: i8)
    ensures
        (r <= 0) == listing_le(*a, *b),
        (r >= 0) == listing_le(*b, *a),
{
    let rank_a: i8 = match a {
        DirOrSongInfo::Dir(_) => 0,
        DirOrSongInfo::Song(_) => 1,
    };
    let rank_b: i8 = match b {
        DirOrSongInfo::Dir(_) => 0,
        DirOrSongInfo::Song(_) => 1,
    };
    if rank_a < rank_b {
        return -1;
    }
    if rank_a > rank_b {
        return 1;
    }
    let text_a = match a {
        DirOrSongInfo::Dir(d) => d.as_str(),
        DirOrSongInfo::Song(s) => s.title_str(),
    };
    let text_b = match b {
        DirOrSongInfo::Dir(d) => d.as_str(),
        DirOrSongInfo::Song(s) => s.title_str(),
    };
    let ab = str_le(text_a, text_b);
    let ba = str_le(text_b, text_a);
    proof {
        lemma_text_le_total(text_a@, text_b@);
    }
    if ab && ba {
        0
    } else if ab {
        -1
    } else {
        1
    }
}

/// Relies on `slice::sort_by`: the result holds the same elements,
/// ordered by the given comparison.
#[verifier::external_body]
pub(crate) fn sort_listing(items: &mut Vec<DirOrSongInfo>)
    ensures
        final(items)@.len() == old(items)@.len(),
        final(items)@.to_multiset() == old(items)@.to_multiset(),
        forall|i: int, j: int|
            0 <= i < j < final(items)@.len() ==> listing_le(
                #[trigger] final(items)@[i],
                #[trigger] final(items)@[j],
            ),
{
    items.sort_by(|a, b| {
        let c = listing_cmp(a, b);
        if c < 0 {
            core::cmp::Ordering::Less
        } else if c == 0 {
            core::cmp::Ordering::Equal
        } else {
            core::cmp::Ordering::Greater
        }
    })
}

/// The preview of a directory: one line per entry, in the browser's
/// listing order — directories first, each group by its display text.
pub fn preview_lines(listing: Vec<DirOrSongInfo>, symbols: &SymbolsConfig) -> (r: Vec<DisplayLine>)
    ensures
        r@.len() == listing@.len(),
        exists|sorted: Seq<DirOrSongInfo>|
            {
                &&& #[trigger] sorted.len() == listing@.len()
                &&& sorted.to_multiset() == listing@.to_multiset()
                &&& (forall|i: int, j: int|
                    0 <= i < j < sorted.len() ==> listing_le(
                        #[trigger] sorted[i],
                        #[trigger] sorted[j],
                    ))
                &&& (forall|k: int|
                    0 <= k < sorted.len() ==> (#[trigger] r@[k]).key@ == (match sorted[k] {
                        DirOrSongInfo::Dir(_) => symbols.dir@,
                        DirOrSongInfo::Song(_) => symbols.song@,
                    }) && r@[k].value@ == dir_or_song_info_text(sorted[k]))
            },
{
    let mut listing = listing;
    sort_listing(&mut listing);
    let lines = listing.to_listitems(symbols);
    proof {
        let sorted = listing@;
        assert(sorted.len() == listing@.len() && sorted.to_multiset() == listing@.to_multiset()
            && (forall|i: int, j: int|
            0 <= i < j < sorted.len() ==> listing_le(#[trigger] sorted[i], #[trigger] sorted[j]))
            && (forall|k: int|
            0 <= k < sorted.len() ==> (#[trigger] lines@[k]).key@ == (match sorted[k] {
                DirOrSongInfo::Dir(_) => symbols.dir@,
                DirOrSongInfo::Song(_) => symbols.song@,
            }) && lines@[k].value@ == dir_or_song_info_text(sorted[k])));
    }
    lines
}

} // verus!
