use vstd::prelude::*;
use vstd::pervasive::VecAdditionalExecFns;
use vstd::string::StringExecFns;

use crate::types::{RepeatMode, TrackInfo};

verus! {

/// One element of a list-valued metadata attribute, as far as the parser reads it.
#[derive(Clone, Debug)]
pub enum MetaItem {
    Str(String),
    Other,
}

/// A metadata attribute's value, as far as the parser reads it.
///
/// A value that arrives wrapped once in a variant is given here unwrapped, the way the
/// bus library's typed reads see it.
#[derive(Clone, Debug)]
pub enum MetaValue {
    Str(String),
    ObjectPath(String),
    Int64(i64),
    Array(Vec<MetaItem>),
    Other,
}

/// One named attribute of a track's metadata.
#[derive(Clone, Debug)]
pub struct MetaEntry {
    pub key: String,
    pub value: MetaValue,
}

/// No two entries share a key.
pub open spec fn keys_unique(m: Seq<MetaEntry>) -> bool {
    forall|i: int, j: int|
        0 <= i < j < m.len() ==> (#[trigger] m[i]).key@ != (#[trigger] m[j]).key@
}

/// A track's metadata: named attributes, each name at most once.
#[derive(Clone, Debug)]
pub struct Metadata {
    entries: Vec<MetaEntry>,
}

impl View for Metadata {
    type V = Seq<MetaEntry>;

    closed spec fn view(&self) -> Seq<MetaEntry> {
        self.entries@
    }
}

impl Metadata {
    pub open spec fn wf(&self) -> bool {
        keys_unique(self@)
    }

    /// Metadata with no attribute.
    pub fn new() -> (r: Metadata)
        ensures
            r@ == Seq::<MetaEntry>::empty(),
            r.wf(),
    {
        Metadata { entries: Vec::new() }
    }

    /// The attributes, in the order they were first set.
    pub fn entries(&self) -> (r: &Vec<MetaEntry>)
        ensures
            r@ == self@,
    {
        &self.entries
    }

    /// Sets attribute `key` to `value`: the entry of that key takes the new value, or
    /// a new entry is appended when there is none.
    pub fn insert(&mut self, key: String, value: MetaValue)
        requires
            old(self).wf(),
        ensures
            final(self).wf(),
            lookup(final(self)@, key@) == Some(value),
            forall|k: Seq<char>| k != key@ ==> lookup(final(self)@, k) == lookup(old(self)@, k),
            (exists|i: int|
                0 <= i < old(self)@.len() && old(self)@[i].key@ == key@ && final(self)@
                    == old(self)@.update(i, MetaEntry { key: key, value: value })) || ((forall|
                i: int,
            |
                0 <= i < old(self)@.len() ==> old(self)@[i].key@ != key@) && final(self)@ == old(
                self,
            )@.push(MetaEntry { key: key, value: value })),
    {
        let ghost k = key@;
        let ghost e = MetaEntry { key: key, value: value };
        let mut i: usize = 0;
        while i < self.entries.len()
            invariant
                i <= self@.len(),
                self@ == old(self)@,
                keys_unique(self@),
                k == key@,
                e == (MetaEntry { key: key, value: value }),
                forall|j: int| 0 <= j < i ==> self@[j].key@ != k,
            decreases self@.len() - i,
        {
            if self.entries[i].key == key {
                let ghost before = self@;
                self.entries.set(i, MetaEntry { key, value });
                proof {
                    assert(self@ == before.update(i as int, e));
                    assert forall|a: int, b: int|
                        0 <= a < b < self@.len() implies (#[trigger] self@[a]).key@ != (
                        #[trigger] self@[b]).key@ by {
                        assert(before[a].key@ != before[b].key@ || a == b);
                    }
                    lemma_lookup_at(self@, i as int);
                    assert forall|q: Seq<char>| q != k implies lookup(self@, q) == lookup(
                        before,
                        q,
                    ) by {
                        lemma_lookup_update_other(before, i as int, e, q);
                    }
                }
                return;
            }
            i = i + 1;
        }
        let ghost before = self@;
        self.entries.push(MetaEntry { key, value });
        proof {
            assert(self@ == before.push(e));
            lemma_lookup_at(self@, before.len() as int);
            assert forall|q: Seq<char>| q != k implies lookup(self@, q) == lookup(before, q) by {
                lemma_lookup_push_other(before, e, q);
            }
        }
    }
}

proof fn lemma_lookup_at(m: Seq<MetaEntry>, i: int)
    requires
        keys_unique(m),
        0 <= i < m.len(),
    ensures
        lookup(m, m[i].key@) == Some(m[i].value),
    decreases m.len(),
{
    if i > 0 {
        let t = m.drop_first();
        assert(m[0].key@ != m[i].key@);
        assert(t[i - 1] == m[i]);
        assert forall|a: int, b: int| 0 <= a < b < t.len() implies (#[trigger] t[a]).key@ != (
        #[trigger] t[b]).key@ by {
            assert(t[a] == m[a + 1] && t[b] == m[b + 1]);
        }
        lemma_lookup_at(t, i - 1);
    }
}

proof fn lemma_lookup_update_other(m: Seq<MetaEntry>, i: int, e: MetaEntry, q: Seq<char>)
    requires
        0 <= i < m.len(),
        q != m[i].key@,
        q != e.key@,
    ensures
        lookup(m.update(i, e), q) == lookup(m, q),
    decreases m.len(),
{
    let u = m.update(i, e);
    if i > 0 {
        assert(u[0] == m[0]);
        assert(u.drop_first() =~= m.drop_first().update(i - 1, e));
        lemma_lookup_update_other(m.drop_first(), i - 1, e, q);
    } else {
        assert(u[0] == e);
        assert(u.drop_first() =~= m.drop_first());
    }
}

proof fn lemma_lookup_push_other(m: Seq<MetaEntry>, e: MetaEntry, q: Seq<char>)
    requires
        q != e.key@,
    ensures
        lookup(m.push(e), q) == lookup(m, q),
    decreases m.len(),
{
    let u = m.push(e);
    if m.len() == 0 {
        assert(u[0] == e);
        assert(u.drop_first() =~= Seq::<MetaEntry>::empty());
        assert(lookup(u.drop_first(), q) is None);
        assert(lookup(u, q) == lookup(u.drop_first(), q));
    } else {
        assert(u[0] == m[0]);
        assert(u.drop_first() =~= m.drop_first().push(e));
        lemma_lookup_push_other(m.drop_first(), e, q);
    }
}

/// The contents of a [`TrackInfo`] as character sequences.
pub ghost struct TrackInfoView {
    pub title: Seq<char>,
    pub artist: Seq<char>,
    pub album: Seq<char>,
    pub art_url: Option<Seq<char>>,
    pub uri: Seq<char>,
}

pub open spec fn opt_string_view(s: Option<String>) -> Option<Seq<char>> {
    match s {
        Some(v) => Some(v@),
        None => None,
    }
}

impl View for TrackInfo {
    type V = TrackInfoView;

    open spec fn view(&self) -> TrackInfoView {
        TrackInfoView {
            title: self.title@,
            artist: self.artist@,
            album: self.album@,
            art_url: opt_string_view(self.art_url),
            uri: self.uri@,
        }
    }
}

pub open spec fn opt_track_view(t: Option<TrackInfo>) -> Option<TrackInfoView> {
    match t {
        Some(v) => Some(v@),
        None => None,
    }
}

pub open spec fn title_key() -> Seq<char> {
    "xesam:title"@
}

pub open spec fn artist_key() -> Seq<char> {
    "xesam:artist"@
}

pub open spec fn album_key() -> Seq<char> {
    "xesam:album"@
}

pub open spec fn art_url_key() -> Seq<char> {
    "mpris:artUrl"@
}

pub open spec fn track_id_key() -> Seq<char> {
    "mpris:trackid"@
}

pub open spec fn length_key() -> Seq<char> {
    "mpris:length"@
}

/// The value of the first entry named `key`.
pub open spec fn lookup(m: Seq<MetaEntry>, key: Seq<char>) -> Option<MetaValue>
    decreases m.len(),
{
    if m.len() == 0 {
        None
    } else if m[0].key@ == key {
        Some(m[0].value)
    } else {
        lookup(m.drop_first(), key)
    }
}

/// The attribute `key` read as a string.
pub open spec fn str_attr(m: Seq<MetaEntry>, key: Seq<char>) -> Option<Seq<char>> {
    match lookup(m, key) {
        Some(MetaValue::Str(s)) => Some(s@),
        _ => None,
    }
}

/// The attribute `key` read as an object path.
pub open spec fn path_attr(m: Seq<MetaEntry>, key: Seq<char>) -> Option<Seq<char>> {
    match lookup(m, key) {
        Some(MetaValue::ObjectPath(s)) => Some(s@),
        _ => None,
    }
}

/// The first element of the list attribute `key`, read as a string.
pub open spec fn first_str_attr(m: Seq<MetaEntry>, key: Seq<char>) -> Option<Seq<char>> {
    match lookup(m, key) {
        Some(MetaValue::Array(items)) => if items@.len() > 0 {
            match items@[0] {
                MetaItem::Str(s) => Some(s@),
                MetaItem::Other => None,
            }
        } else {
            None
        },
        _ => None,
    }
}

pub open spec fn or_empty(s: Option<Seq<char>>) -> Seq<char> {
    match s {
        Some(v) => v,
        None => Seq::empty(),
    }
}

/// The track that metadata `m` describes: none without a title; otherwise the first
/// artist, the album, the cover-art URL and the track id, each defaulting to empty
/// (the URL to absent).
pub open spec fn parsed_track(m: Seq<MetaEntry>) -> Option<TrackInfoView> {
    match str_attr(m, title_key()) {
        None => None,
        Some(title) => Some(
            TrackInfoView {
                title: title,
                artist: or_empty(first_str_attr(m, artist_key())),
                album: or_empty(str_attr(m, album_key())),
                art_url: str_attr(m, art_url_key()),
                uri: or_empty(path_attr(m, track_id_key())),
            },
        ),
    }
}

/// The track length in microseconds, when the metadata gives it as a 64-bit integer.
pub open spec fn length_attr(m: Seq<MetaEntry>) -> Option<i64> {
    match lookup(m, length_key()) {
        Some(MetaValue::Int64(d)) => Some(d),
        _ => None,
    }
}

/// Microseconds to milliseconds, rounding toward zero.
pub open spec fn millis_of_micros(us: int) -> int {
    if us >= 0 {
        us / 1000
    } else {
        -((-us) / 1000)
    }
}

/// The duration, in milliseconds, that metadata `m` gives; zero when it gives none.
pub open spec fn parsed_duration_ms(m: Seq<MetaEntry>) -> int {
    match length_attr(m) {
        Some(d) => millis_of_micros(d as int),
        None => 0,
    }
}

/// Finds the value of the first entry named `key`.
pub fn find_entry<'a>(m: &'a Vec<MetaEntry>, key: &String) -> (r: Option<&'a MetaValue>)
    ensures
        match r {
            Some(v) => lookup(m@, key@) == Some(*v),
            None => lookup(m@, key@) is None,
        },
{
    let mut i: usize = 0;
    assert(m@.subrange(0, m@.len() as int) =~= m@);
    while i < m.len()
        invariant
            i <= m@.len(),
            lookup(m@, key@) == lookup(m@.subrange(i as int, m@.len() as int), key@),
        decreases m@.len() - i,
    {
        let ghost rest = m@.subrange(i as int, m@.len() as int);
        assert(rest.drop_first() =~= m@.subrange(i + 1, m@.len() as int));
        if m[i].key == *key {
            return Some(&m[i].value);
        }
        i = i + 1;
    }
    None
}

fn read_str(m: &Vec<MetaEntry>, key: &str) -> (r: Option<String>)
    ensures
        opt_string_view(r) == str_attr(m@, key@),
{
    match find_entry(m, &String::from_str(key)) {
        Some(MetaValue::Str(s)) => Some(s.clone()),
        _ => None,
    }
}

fn read_path(m: &Vec<MetaEntry>, key: &str) -> (r: Option<String>)
    ensures
        opt_string_view(r) == path_attr(m@, key@),
{
    match find_entry(m, &String::from_str(key)) {
        Some(MetaValue::ObjectPath(s)) => Some(s.clone()),
        _ => None,
    }
}

fn read_first_str(m: &Vec<MetaEntry>, key: &str) -> (r: Option<String>)
    ensures
        opt_string_view(r) == first_str_attr(m@, key@),
{
    match find_entry(m, &String::from_str(key)) {
        Some(MetaValue::Array(items)) => {
            if items.len() > 0 {
                match &items[0] {
                    MetaItem::Str(s) => Some(s.clone()),
                    MetaItem::Other => None,
                }
            } else {
                None
            }
        },
        _ => None,
    }
}

fn unwrap_or_empty(s: Option<String>) -> (r: String)
    ensures
        r@ == or_empty(opt_string_view(s)),
{
    match s {
        Some(v) => v,
        None => String::new(),
    }
}

/// Reads a track description out of metadata.
///
/// Without a string title there is no track. The artist is the first element of the
/// artist list (further artists are not kept).
pub fn parse_metadata(metadata: &Metadata) -> (r: Option<TrackInfo>)
    ensures
        opt_track_view(r) == parsed_track(metadata@),
{
    let metadata = metadata.entries();
    let title = match read_str(metadata, "xesam:title") {
        Some(t) => t,
        None => {
            return None;
        },
    };
    let artist = unwrap_or_empty(read_first_str(metadata, "xesam:artist"));
    let album = unwrap_or_empty(read_str(metadata, "xesam:album"));
    let art_url = read_str(metadata, "mpris:artUrl");
    let uri = unwrap_or_empty(read_path(metadata, "mpris:trackid"));
    Some(TrackInfo { title, artist, album, art_url, uri })
}

/// The track length in microseconds, when the metadata gives it.
pub fn extract_duration(metadata: &Metadata) -> (r: Option<i64>)
    ensures
        r == length_attr(metadata@),
{
    match find_entry(metadata.entries(), &String::from_str("mpris:length")) {
        Some(MetaValue::Int64(d)) => Some(*d),
        _ => None,
    }
}

/// Microseconds to milliseconds, rounding toward zero.
pub fn micros_to_millis(us: i64) -> (r: i64)
    ensures
        r as int == millis_of_micros(us as int),
{
    if us >= 0 {
        us / 1000
    } else {
        let q: i64 = (-(us + 1)) / 1000;
        let rem: i64 = (-(us + 1)) % 1000;
        if rem == 999 {
            -(q + 1)
        } else {
            -q
        }
    }
}

/// The duration in milliseconds that the metadata gives, zero when it gives none.
pub fn duration_ms_of(metadata: &Metadata) -> (r: i64)
    ensures
        r as int == parsed_duration_ms(metadata@),
{
    match extract_duration(metadata) {
        Some(d) => micros_to_millis(d),
        None => 0,
    }
}

pub open spec fn playing_status() -> Seq<char> {
    "Playing"@
}

/// Whether a playback-status value means that the player is playing.
pub fn is_playing_status(status: &str) -> (r: bool)
    ensures
        r == (status@ == playing_status()),
{
    status.to_owned() == String::from_str("Playing")
}

/// The repeat mode that a loop-status value names; anything unknown is no repetition.
pub open spec fn repeat_of_loop_status(s: Seq<char>) -> RepeatMode {
    if s == "Playlist"@ {
        RepeatMode::Playlist
    } else if s == "Track"@ {
        RepeatMode::Track
    } else {
        RepeatMode::Off
    }
}

/// The loop-status value that names a repeat mode.
pub open spec fn loop_status_of(m: RepeatMode) -> Seq<char> {
    match m {
        RepeatMode::Off => "None"@,
        RepeatMode::Playlist => "Playlist"@,
        RepeatMode::Track => "Track"@,
    }
}

/// Reads a loop-status value.
pub fn repeat_from_loop_status(status: &str) -> (r: RepeatMode)
    ensures
        r == repeat_of_loop_status(status@),
{
    let s = status.to_owned();
    if s == String::from_str("Playlist") {
        RepeatMode::Playlist
    } else if s == String::from_str("Track") {
        RepeatMode::Track
    } else {
        RepeatMode::Off
    }
}

/// The loop-status value to send for a repeat mode.
pub fn loop_status_for(mode: RepeatMode) -> (r: String)
    ensures
        r@ == loop_status_of(mode),
{
    match mode {
        RepeatMode::Off => String::from_str("None"),
        RepeatMode::Playlist => String::from_str("Playlist"),
        RepeatMode::Track => String::from_str("Track"),
    }
}

} // verus!
