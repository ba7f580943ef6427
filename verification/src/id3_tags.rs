//! Writing enriched tags into an ID3 tag.
//!
//! The tag itself is a value of the `id3` crate; what it holds is its sequence of frames.

use vstd::prelude::*;
use vstd::string::*;
use id3::TagLike;
use crate::musicbrainz::{EnrichedTags, EnrichedTagsView};
use crate::numbers::{
    decimal, is_digit, law_decimal_reads_back, law_u32_reads_back, parsed_u32, value_of,
};
use crate::text::{join, joined};

verus! {

/// `id3::Tag`: a tag as it was read from a file or made anew.
#[verifier::external_type_specification]
#[verifier::external_body]
pub struct ExTag(id3::Tag);

/// A frame of a tag: its four-character id and what it holds.
pub struct FrameView {
    pub id: Seq<char>,
    pub body: FrameBody,
}

/// What a frame holds.
pub enum FrameBody {
    Text(Seq<char>),
    ExtendedText { description: Seq<char>, value: Seq<char> },
    /// Anything else. `sole` tells whether it is of a kind that stands once per id, as text does;
    /// `named` is the text by which it is told from others with its id, where it is one text.
    Other { sole: bool, named: Option<Seq<char>>, data: Seq<u8> },
}

/// The frames of a tag, in their order.
pub uninterp spec fn tag_frames(tag: id3::Tag) -> Seq<FrameView>;

/// A text frame.
pub open spec fn text_frame(id: Seq<char>, text: Seq<char>) -> FrameView {
    FrameView { id, body: FrameBody::Text(text) }
}

/// A user-defined text frame.
pub open spec fn extended_frame(description: Seq<char>, value: Seq<char>) -> FrameView {
    FrameView { id: "TXXX"@, body: FrameBody::ExtendedText { description, value } }
}

/// Whether a new frame takes the place of an old one: a text that of a text with the same id, a
/// user-defined text that of one that is told from others by the same description.
pub open spec fn replaces(new: FrameView, old_frame: FrameView) -> bool {
    old_frame.id == new.id && match new.body {
        FrameBody::Text(_) => match old_frame.body {
            FrameBody::Text(_) => true,
            FrameBody::ExtendedText { description, value } => false,
            FrameBody::Other { sole, .. } => sole,
        },
        FrameBody::ExtendedText { description: d, value: _ } => match old_frame.body {
            FrameBody::Text(_) => false,
            FrameBody::ExtendedText { description, value } => description == d,
            FrameBody::Other { named, .. } => named == Some(d),
        },
        FrameBody::Other { .. } => false,
    }
}

/// The position of the first frame that a new one takes the place of, or the length.
pub open spec fn first_replaced(frames: Seq<FrameView>, new: FrameView) -> nat
    decreases frames.len(),
{
    if frames.len() == 0 || replaces(new, frames[0]) {
        0
    } else {
        1 + first_replaced(frames.drop_first(), new)
    }
}

/// The frames once a new one was added: the first that it takes the place of is gone, and the new
/// one stands at the end.
pub open spec fn put(frames: Seq<FrameView>, new: FrameView) -> Seq<FrameView> {
    let i = first_replaced(frames, new);
    if i < frames.len() {
        frames.remove(i as int).push(new)
    } else {
        frames.push(new)
    }
}

/// `s` with zeros before it, up to a width.
pub open spec fn zero_padded(s: Seq<char>, width: int) -> Seq<char>
    decreases width - s.len(),
{
    if s.len() >= width {
        s
    } else {
        zero_padded(seq!['0'] + s, width)
    }
}

/// A year in at least four characters, the sign being one of them.
pub open spec fn year_text(year: int) -> Seq<char> {
    if year < 0 {
        seq!['-'] + zero_padded(decimal((-year) as nat), 3)
    } else {
        zero_padded(decimal(year as nat), 4)
    }
}

/// The text of the first frame with an id, where that frame holds text.
pub open spec fn first_text(frames: Seq<FrameView>, id: Seq<char>) -> Option<Seq<char>>
    decreases frames.len(),
{
    if frames.len() == 0 {
        None
    } else if frames[0].id == id {
        match frames[0].body {
            FrameBody::Text(t) => Some(t),
            _ => None,
        }
    } else {
        first_text(frames.drop_first(), id)
    }
}

/// How many characters of `s` come before its first slash or null.
pub open spec fn pair_split(s: Seq<char>) -> nat
    decreases s.len(),
{
    if s.len() == 0 || s[0] == '/' || s[0] == '\0' {
        0
    } else {
        1 + pair_split(s.drop_first())
    }
}

/// The numbers of a text like `3/12`; the second may be missing.
pub open spec fn number_pair(text: Seq<char>) -> Option<(u32, Option<u32>)> {
    let n = pair_split(text) as int;
    match parsed_u32(text.take(n)) {
        Some(a) => Some(
            (
                a,
                if n < text.len() {
                    parsed_u32(text.skip(n + 1))
                } else {
                    None
                },
            ),
        ),
        None => None,
    }
}

/// The track number and the number of tracks that the frames hold.
pub open spec fn track_pair(frames: Seq<FrameView>) -> Option<(u32, Option<u32>)> {
    match first_text(frames, "TRCK"@) {
        Some(t) => number_pair(t),
        None => None,
    }
}

/// The frames once the track number was set; a number of tracks that was there stays.
pub open spec fn with_track(frames: Seq<FrameView>, track: u32) -> Seq<FrameView> {
    let text = match track_pair(frames) {
        Some((_, Some(total))) => decimal(track as nat) + seq!['/'] + decimal(total as nat),
        _ => decimal(track as nat),
    };
    put(frames, text_frame("TRCK"@, text))
}

/// The frames once the number of tracks was set; a track number that was there stays, and is one
/// where there was none.
pub open spec fn with_total(frames: Seq<FrameView>, total: u32) -> Seq<FrameView> {
    let text = match track_pair(frames) {
        Some((track, _)) => decimal(track as nat) + seq!['/'] + decimal(total as nat),
        None => seq!['1', '/'] + decimal(total as nat),
    };
    put(frames, text_frame("TRCK"@, text))
}

/// `id3::TagLike::set_artist`: puts a `TPE1` text frame.
#[verifier::external_body]
fn set_artist(tag: &mut id3::Tag, artist: &str)
    ensures
        tag_frames(*final(tag)) == put(tag_frames(*old(tag)), text_frame("TPE1"@, artist@)),
{
    tag.set_artist(artist);
}

/// `id3::TagLike::set_album`: puts a `TALB` text frame.
#[verifier::external_body]
fn set_album(tag: &mut id3::Tag, album: &str)
    ensures
        tag_frames(*final(tag)) == put(tag_frames(*old(tag)), text_frame("TALB"@, album@)),
{
    tag.set_album(album);
}

/// `id3::TagLike::set_year`: puts a `TYER` text frame with the year in at least four characters.
#[verifier::external_body]
fn set_year(tag: &mut id3::Tag, year: i32)
    ensures
        tag_frames(*final(tag)) == put(
            tag_frames(*old(tag)),
            text_frame("TYER"@, year_text(year as int)),
        ),
{
    tag.set_year(year);
}

/// `id3::TagLike::set_track`: puts a `TRCK` text frame with the track number, and after a slash the
/// number of tracks that the tag held.
#[verifier::external_body]
fn set_track(tag: &mut id3::Tag, track: u32)
    ensures
        tag_frames(*final(tag)) == with_track(tag_frames(*old(tag)), track),
{
    tag.set_track(track);
}

/// `id3::TagLike::set_total_tracks`: puts a `TRCK` text frame with the track number that the tag
/// held, or one, and after a slash the number of tracks.
#[verifier::external_body]
fn set_total_tracks(tag: &mut id3::Tag, total: u32)
    ensures
        tag_frames(*final(tag)) == with_total(tag_frames(*old(tag)), total),
{
    tag.set_total_tracks(total);
}

/// `id3::TagLike::set_genre`: puts a `TCON` text frame.
#[verifier::external_body]
fn set_genre(tag: &mut id3::Tag, genre: &str)
    ensures
        tag_frames(*final(tag)) == put(tag_frames(*old(tag)), text_frame("TCON"@, genre@)),
{
    tag.set_genre(genre);
}

/// `id3::TagLike::add_frame` with an `id3::frame::ExtendedText`: puts a `TXXX` frame.
#[verifier::external_body]
fn add_extended_text(tag: &mut id3::Tag, description: &str, value: &str)
    ensures
        tag_frames(*final(tag)) == put(
            tag_frames(*old(tag)),
            extended_frame(description@, value@),
        ),
{
    tag.add_frame(
        id3::frame::ExtendedText {
            description: description.to_string(),
            value: value.to_string(),
        },
    );
}

/// The frames once an optional text was put.
pub open spec fn put_text(
    frames: Seq<FrameView>,
    id: Seq<char>,
    text: Option<Seq<char>>,
) -> Seq<FrameView> {
    match text {
        Some(t) => put(frames, text_frame(id, t)),
        None => frames,
    }
}

/// The frames once an optional user-defined text was put.
pub open spec fn put_extended(
    frames: Seq<FrameView>,
    description: Seq<char>,
    value: Option<Seq<char>>,
) -> Seq<FrameView> {
    match value {
        Some(v) => put(frames, extended_frame(description, v)),
        None => frames,
    }
}

/// The frames once the year was set, where there is one.
pub open spec fn put_year(frames: Seq<FrameView>, year: Option<i32>) -> Seq<FrameView> {
    match year {
        Some(y) => put(frames, text_frame("TYER"@, year_text(y as int))),
        None => frames,
    }
}

/// The frames once the track number and then the number of tracks were set, where there are any.
pub open spec fn put_tracks(
    frames: Seq<FrameView>,
    track: Option<u32>,
    total: Option<u32>,
) -> Seq<FrameView> {
    let numbered = match track {
        Some(n) => with_track(frames, n),
        None => frames,
    };
    match total {
        Some(n) => with_total(numbered, n),
        None => numbered,
    }
}

/// The frames once the genres were set, where there are any.
pub open spec fn put_genres(frames: Seq<FrameView>, genres: Seq<Seq<char>>) -> Seq<FrameView> {
    if genres.len() > 0 {
        put(frames, text_frame("TCON"@, joined(genres, "; "@)))
    } else {
        frames
    }
}

/// The frames of a tag once everything that was found out stands in it.
pub open spec fn enriched_frames(frames: Seq<FrameView>, tags: EnrichedTagsView) -> Seq<
    FrameView,
> {
    let f = put_text(frames, "TPE1"@, tags.artist);
    let f = put_text(f, "TALB"@, tags.album);
    let f = put_year(f, tags.year);
    let f = put_tracks(f, tags.track_number, tags.total_tracks);
    let f = put_genres(f, tags.genres);
    let f = put_extended(f, "MusicBrainz Recording Id"@, tags.recording_mbid);
    put_extended(f, "MusicBrainz Album Id"@, tags.release_mbid)
}

/// Puts what was found out into a tag. Nothing is put for what is not known, and the title and the
/// pictures that the tag holds are left alone.
pub fn write_id3(tag: &mut id3::Tag, tags: &EnrichedTags)
    ensures
        tag_frames(*final(tag)) == enriched_frames(tag_frames(*old(tag)), tags@),
{
    if let Some(a) = &tags.artist {
        set_artist(tag, a.as_str());
    }
    if let Some(a) = &tags.album {
        set_album(tag, a.as_str());
    }
    if let Some(y) = tags.year {
        set_year(tag, y);
    }
    if let Some(n) = tags.track_number {
        set_track(tag, n);
    }
    if let Some(n) = tags.total_tracks {
        set_total_tracks(tag, n);
    }
    if tags.genres.len() > 0 {
        let genre = join(&tags.genres, "; ");
        set_genre(tag, genre.as_str());
    }
    if let Some(mbid) = &tags.recording_mbid {
        add_extended_text(tag, "MusicBrainz Recording Id", mbid.as_str());
    }
    if let Some(mbid) = &tags.release_mbid {
        add_extended_text(tag, "MusicBrainz Album Id", mbid.as_str());
    }
}

/// The frames with an id, in their order.
pub open spec fn of_id(frames: Seq<FrameView>, id: Seq<char>) -> Seq<FrameView>
    decreases frames.len(),
{
    if frames.len() == 0 {
        seq![]
    } else if frames[0].id == id {
        seq![frames[0]] + of_id(frames.drop_first(), id)
    } else {
        of_id(frames.drop_first(), id)
    }
}

proof fn lemma_of_id_push(frames: Seq<FrameView>, new: FrameView, id: Seq<char>)
    ensures
        of_id(frames.push(new), id) == if new.id == id {
            of_id(frames, id).push(new)
        } else {
            of_id(frames, id)
        },
    decreases frames.len(),
{
    if frames.len() == 0 {
        assert(frames.push(new).drop_first() =~= frames);
        assert(of_id(frames.push(new).drop_first(), id) =~= seq![]);
    } else {
        assert(frames.push(new).drop_first() =~= frames.drop_first().push(new));
        lemma_of_id_push(frames.drop_first(), new, id);
    }
}

proof fn lemma_of_id_remove(frames: Seq<FrameView>, i: int, id: Seq<char>)
    requires
        0 <= i < frames.len(),
    ensures
        frames[i].id != id ==> of_id(frames.remove(i), id) == of_id(frames, id),
        frames[i].id == id ==> of_id(frames.remove(i), id).len() == of_id(frames, id).len() - 1,
    decreases frames.len(),
{
    if i == 0 {
        assert(frames.remove(0) =~= frames.drop_first());
    } else {
        lemma_of_id_remove(frames.drop_first(), i - 1, id);
        assert(frames.remove(i).drop_first() =~= frames.drop_first().remove(i - 1));
        assert(frames.drop_first()[i - 1] == frames[i]);
    }
}

proof fn lemma_first_replaced(frames: Seq<FrameView>, new: FrameView)
    ensures
        first_replaced(frames, new) <= frames.len(),
        first_replaced(frames, new) < frames.len() ==> replaces(
            new,
            frames[first_replaced(frames, new) as int],
        ),
        forall|k: int|
            0 <= k < first_replaced(frames, new) ==> !replaces(new, #[trigger] frames[k]),
    decreases frames.len(),
{
    if frames.len() > 0 && !replaces(new, frames[0]) {
        lemma_first_replaced(frames.drop_first(), new);
        assert forall|k: int| 0 <= k < first_replaced(frames, new) implies !replaces(
            new,
            #[trigger] frames[k],
        ) by {
            if k > 0 {
                assert(frames.drop_first()[k - 1] == frames[k]);
            }
        }
    }
}

proof fn lemma_of_id_is_in(frames: Seq<FrameView>, id: Seq<char>)
    ensures
        of_id(frames, id).len() > 0 ==> of_id(frames, id)[0].id == id && frames.contains(
            of_id(frames, id)[0],
        ),
    decreases frames.len(),
{
    if frames.len() > 0 {
        lemma_of_id_is_in(frames.drop_first(), id);
        if frames[0].id != id && of_id(frames, id).len() > 0 {
            let k = choose|k: int|
                0 <= k < frames.drop_first().len() && frames.drop_first()[k] == of_id(frames, id)[0];
            assert(frames[k + 1] == of_id(frames, id)[0]);
        }
    }
}

/// A frame that is put changes nothing about the frames with other ids.
proof fn lemma_put_elsewhere(frames: Seq<FrameView>, new: FrameView, id: Seq<char>)
    requires
        new.id != id,
    ensures
        of_id(put(frames, new), id) == of_id(frames, id),
{
    lemma_first_replaced(frames, new);
    let i = first_replaced(frames, new) as int;
    if i < frames.len() {
        lemma_of_id_remove(frames, i, id);
        lemma_of_id_push(frames.remove(i), new, id);
    } else {
        lemma_of_id_push(frames, new, id);
    }
}

/// Whether a tag holds at most one frame with an id, and one that a text takes the place of.
pub open spec fn at_most_one(frames: Seq<FrameView>, id: Seq<char>) -> bool {
    of_id(frames, id).len() == 0 || (of_id(frames, id).len() == 1 && replaces(
        text_frame(id, seq![]),
        of_id(frames, id)[0],
    ))
}

/// A text that is put is the only frame with its id, where there was at most one.
proof fn lemma_put_text(frames: Seq<FrameView>, id: Seq<char>, text: Seq<char>)
    requires
        at_most_one(frames, id),
    ensures
        of_id(put(frames, text_frame(id, text)), id) == seq![text_frame(id, text)],
        at_most_one(put(frames, text_frame(id, text)), id),
{
    let new = text_frame(id, text);
    lemma_first_replaced(frames, new);
    lemma_of_id_is_in(frames, id);
    let i = first_replaced(frames, new) as int;
    if i < frames.len() {
        lemma_of_id_remove(frames, i, id);
        lemma_of_id_push(frames.remove(i), new, id);
    } else {
        lemma_of_id_push(frames, new, id);
        if of_id(frames, id).len() > 0 {
            let k = choose|k: int| 0 <= k < frames.len() && frames[k] == of_id(frames, id)[0];
            assert(replaces(new, frames[k]));
        }
    }
    assert(of_id(put(frames, new), id) =~= seq![new]);
}

/// The ids of the frames that are written.
pub open spec fn written_ids() -> Seq<Seq<char>> {
    seq!["TPE1"@, "TALB"@, "TYER"@, "TRCK"@, "TCON"@, "TXXX"@]
}

proof fn lemma_written_ids_differ()
    ensures
        forall|i: int, j: int| 0 <= i < j < 6 ==> written_ids()[i] != written_ids()[j],
{
    reveal_strlit("TPE1");
    reveal_strlit("TALB");
    reveal_strlit("TYER");
    reveal_strlit("TRCK");
    reveal_strlit("TCON");
    reveal_strlit("TXXX");
    assert("TPE1"@[1] == 'P' && "TALB"@[1] == 'A' && "TYER"@[1] == 'Y' && "TRCK"@[1] == 'R'
        && "TCON"@[1] == 'C' && "TXXX"@[1] == 'X');
}

/// Whatever the tag holds under other ids, its title and its pictures among it, stays as it is.
pub proof fn law_other_frames_stay(frames: Seq<FrameView>, tags: EnrichedTagsView, id: Seq<char>)
    requires
        forall|i: int| 0 <= i < 6 ==> id != #[trigger] written_ids()[i],
    ensures
        of_id(enriched_frames(frames, tags), id) == of_id(frames, id),
{
    assert(id != written_ids()[0] && id != written_ids()[1] && id != written_ids()[2] && id
        != written_ids()[3] && id != written_ids()[4] && id != written_ids()[5]);
    lemma_steps_elsewhere(frames, tags, id);
}

/// The frames before each step of writing.
pub open spec fn before_album(frames: Seq<FrameView>, tags: EnrichedTagsView) -> Seq<FrameView> {
    put_text(frames, "TPE1"@, tags.artist)
}

pub open spec fn before_year(frames: Seq<FrameView>, tags: EnrichedTagsView) -> Seq<FrameView> {
    put_text(before_album(frames, tags), "TALB"@, tags.album)
}

pub open spec fn before_tracks(frames: Seq<FrameView>, tags: EnrichedTagsView) -> Seq<FrameView> {
    put_year(before_year(frames, tags), tags.year)
}

pub open spec fn before_genres(frames: Seq<FrameView>, tags: EnrichedTagsView) -> Seq<FrameView> {
    put_tracks(before_tracks(frames, tags), tags.track_number, tags.total_tracks)
}

pub open spec fn before_ids(frames: Seq<FrameView>, tags: EnrichedTagsView) -> Seq<FrameView> {
    put_genres(before_genres(frames, tags), tags.genres)
}

/// Each step leaves the frames with other ids than its own alone.
proof fn lemma_steps_elsewhere(frames: Seq<FrameView>, tags: EnrichedTagsView, id: Seq<char>)
    ensures
        id != "TPE1"@ ==> of_id(before_album(frames, tags), id) == of_id(frames, id),
        id != "TALB"@ ==> of_id(before_year(frames, tags), id) == of_id(
            before_album(frames, tags),
            id,
        ),
        id != "TYER"@ ==> of_id(before_tracks(frames, tags), id) == of_id(
            before_year(frames, tags),
            id,
        ),
        id != "TRCK"@ ==> of_id(before_genres(frames, tags), id) == of_id(
            before_tracks(frames, tags),
            id,
        ),
        id != "TCON"@ ==> of_id(before_ids(frames, tags), id) == of_id(
            before_genres(frames, tags),
            id,
        ),
        id != "TXXX"@ ==> of_id(enriched_frames(frames, tags), id) == of_id(
            before_ids(frames, tags),
            id,
        ),
{
    if let Some(a) = tags.artist {
        if id != "TPE1"@ {
            lemma_put_elsewhere(frames, text_frame("TPE1"@, a), id);
        }
    }
    if let Some(a) = tags.album {
        if id != "TALB"@ {
            lemma_put_elsewhere(before_album(frames, tags), text_frame("TALB"@, a), id);
        }
    }
    if let Some(y) = tags.year {
        if id != "TYER"@ {
            lemma_put_elsewhere(
                before_year(frames, tags),
                text_frame("TYER"@, year_text(y as int)),
                id,
            );
        }
    }
    if id != "TRCK"@ {
        lemma_tracks_elsewhere(
            before_tracks(frames, tags),
            tags.track_number,
            tags.total_tracks,
            id,
        );
    }
    if tags.genres.len() > 0 && id != "TCON"@ {
        lemma_put_elsewhere(
            before_genres(frames, tags),
            text_frame("TCON"@, joined(tags.genres, "; "@)),
            id,
        );
    }
    if id != "TXXX"@ {
        let f = before_ids(frames, tags);
        if let Some(v) = tags.recording_mbid {
            lemma_put_elsewhere(f, extended_frame("MusicBrainz Recording Id"@, v), id);
        }
        let g = put_extended(f, "MusicBrainz Recording Id"@, tags.recording_mbid);
        if let Some(v) = tags.release_mbid {
            lemma_put_elsewhere(g, extended_frame("MusicBrainz Album Id"@, v), id);
        }
    }
}

proof fn lemma_tracks_elsewhere(
    frames: Seq<FrameView>,
    track: Option<u32>,
    total: Option<u32>,
    id: Seq<char>,
)
    requires
        id != "TRCK"@,
    ensures
        of_id(put_tracks(frames, track, total), id) == of_id(frames, id),
{
    let numbered = match track {
        Some(n) => with_track(frames, n),
        None => frames,
    };
    if let Some(n) = track {
        let text = match track_pair(frames) {
            Some((_, Some(t))) => decimal(n as nat) + seq!['/'] + decimal(t as nat),
            _ => decimal(n as nat),
        };
        lemma_put_elsewhere(frames, text_frame("TRCK"@, text), id);
    }
    if let Some(n) = total {
        let text = match track_pair(numbered) {
            Some((t, _)) => decimal(t as nat) + seq!['/'] + decimal(n as nat),
            None => seq!['1', '/'] + decimal(n as nat),
        };
        lemma_put_elsewhere(numbered, text_frame("TRCK"@, text), id);
    }
}

/// What was found out stands in the tag afterwards: the artist, the album, the year and the genres
/// are each the one frame with their id, where the tag held at most one before.
pub proof fn law_tags_are_written(frames: Seq<FrameView>, tags: EnrichedTagsView)
    ensures
        match tags.artist {
            Some(a) => at_most_one(frames, "TPE1"@) ==> of_id(
                enriched_frames(frames, tags),
                "TPE1"@,
            ) == seq![text_frame("TPE1"@, a)],
            None => of_id(enriched_frames(frames, tags), "TPE1"@) == of_id(frames, "TPE1"@),
        },
        match tags.album {
            Some(a) => at_most_one(frames, "TALB"@) ==> of_id(
                enriched_frames(frames, tags),
                "TALB"@,
            ) == seq![text_frame("TALB"@, a)],
            None => of_id(enriched_frames(frames, tags), "TALB"@) == of_id(frames, "TALB"@),
        },
        match tags.year {
            Some(y) => at_most_one(frames, "TYER"@) ==> of_id(
                enriched_frames(frames, tags),
                "TYER"@,
            ) == seq![text_frame("TYER"@, year_text(y as int))],
            None => of_id(enriched_frames(frames, tags), "TYER"@) == of_id(frames, "TYER"@),
        },
        if tags.genres.len() > 0 {
            at_most_one(frames, "TCON"@) ==> of_id(enriched_frames(frames, tags), "TCON"@) == seq![
                text_frame("TCON"@, joined(tags.genres, "; "@)),
            ]
        } else {
            of_id(enriched_frames(frames, tags), "TCON"@) == of_id(frames, "TCON"@)
        },
{
    lemma_written_ids_differ();
    let ids = written_ids();
    assert(ids[0] == "TPE1"@ && ids[1] == "TALB"@ && ids[2] == "TYER"@ && ids[3] == "TRCK"@
        && ids[4] == "TCON"@ && ids[5] == "TXXX"@);
    lemma_steps_elsewhere(frames, tags, "TPE1"@);
    lemma_steps_elsewhere(frames, tags, "TALB"@);
    lemma_steps_elsewhere(frames, tags, "TYER"@);
    lemma_steps_elsewhere(frames, tags, "TCON"@);
    if let Some(a) = tags.artist {
        if at_most_one(frames, "TPE1"@) {
            lemma_put_text(frames, "TPE1"@, a);
        }
    }
    if let Some(a) = tags.album {
        if at_most_one(frames, "TALB"@) {
            lemma_put_text(before_album(frames, tags), "TALB"@, a);
        }
    }
    if let Some(y) = tags.year {
        if at_most_one(frames, "TYER"@) {
            lemma_put_text(before_year(frames, tags), "TYER"@, year_text(y as int));
        }
    }
    if tags.genres.len() > 0 && at_most_one(frames, "TCON"@) {
        lemma_put_text(
            before_genres(frames, tags),
            "TCON"@,
            joined(tags.genres, "; "@),
        );
    }
}

proof fn lemma_first_text(frames: Seq<FrameView>, id: Seq<char>)
    ensures
        first_text(frames, id) == if of_id(frames, id).len() > 0 {
            match of_id(frames, id)[0].body {
                FrameBody::Text(t) => Some(t),
                _ => None,
            }
        } else {
            None
        },
    decreases frames.len(),
{
    if frames.len() > 0 {
        lemma_first_text(frames.drop_first(), id);
    }
}

proof fn lemma_pair_split(head: Seq<char>, tail: Seq<char>)
    requires
        forall|i: int| 0 <= i < head.len() ==> is_digit(#[trigger] head[i]),
        tail.len() == 0 || tail[0] == '/',
    ensures
        pair_split(head + tail) == head.len(),
    decreases head.len(),
{
    if head.len() > 0 {
        assert(is_digit(head[0]));
        assert((head + tail).drop_first() =~= head.drop_first() + tail);
        assert forall|i: int| 0 <= i < head.drop_first().len() implies is_digit(
            #[trigger] head.drop_first()[i],
        ) by {
            assert(is_digit(head[i + 1]));
        }
        lemma_pair_split(head.drop_first(), tail);
    } else {
        assert(head + tail =~= tail);
    }
}

/// A number with nothing or a slash behind it is read as that number.
proof fn lemma_number_pair(n: u32, tail: Seq<char>)
    requires
        tail.len() == 0 || tail[0] == '/',
    ensures
        match number_pair(decimal(n as nat) + tail) {
            Some((a, _)) => a == n,
            None => false,
        },
{
    let d = decimal(n as nat);
    law_decimal_reads_back(n as nat);
    law_u32_reads_back(n);
    lemma_pair_split(d, tail);
    assert((d + tail).take(d.len() as int) =~= d);
}

/// Where both the track number and the number of tracks were found out, the one track frame holds
/// both with a slash between them.
pub proof fn law_track_numbers_are_written(
    frames: Seq<FrameView>,
    tags: EnrichedTagsView,
    track: u32,
    total: u32,
)
    requires
        tags.track_number == Some(track),
        tags.total_tracks == Some(total),
        at_most_one(frames, "TRCK"@),
    ensures
        of_id(enriched_frames(frames, tags), "TRCK"@) == seq![
            text_frame("TRCK"@, decimal(track as nat) + seq!['/'] + decimal(total as nat)),
        ],
{
    lemma_written_ids_differ();
    let ids = written_ids();
    assert(ids[0] == "TPE1"@ && ids[1] == "TALB"@ && ids[2] == "TYER"@ && ids[3] == "TRCK"@
        && ids[4] == "TCON"@ && ids[5] == "TXXX"@);
    lemma_steps_elsewhere(frames, tags, "TRCK"@);
    let f = before_tracks(frames, tags);
    let tail = match track_pair(f) {
        Some((_, Some(t))) => seq!['/'] + decimal(t as nat),
        _ => seq![],
    };
    let text = decimal(track as nat) + tail;
    let g = with_track(f, track);
    assert(text =~= match track_pair(f) {
        Some((_, Some(t))) => decimal(track as nat) + seq!['/'] + decimal(t as nat),
        _ => decimal(track as nat),
    });
    lemma_put_text(f, "TRCK"@, text);
    lemma_first_text(g, "TRCK"@);
    lemma_number_pair(track, tail);
    let both = decimal(track as nat) + seq!['/'] + decimal(total as nat);
    assert(with_total(g, total) == put(g, text_frame("TRCK"@, both)));
    lemma_put_text(g, "TRCK"@, both);
}

/// A frame that was put is there, and so is every frame that it does not take the place of.
proof fn lemma_put_holds(frames: Seq<FrameView>, new: FrameView, other: FrameView)
    ensures
        put(frames, new).contains(new),
        frames.contains(other) && !replaces(new, other) ==> put(frames, new).contains(other),
{
    lemma_first_replaced(frames, new);
    let i = first_replaced(frames, new) as int;
    let all = put(frames, new);
    assert(all.last() == new);
    if frames.contains(other) && !replaces(new, other) {
        let k = choose|k: int| 0 <= k < frames.len() && frames[k] == other;
        if k < i {
            assert(all[k] == other);
        } else {
            assert(k != i);
            assert(all[k - 1] == other);
        }
    }
}

/// The ids of the recording and of its release stand in the tag afterwards, each in a user-defined
/// text under its own description, where they were found out; and user-defined texts under other
/// descriptions stay.
pub proof fn law_ids_are_written(
    frames: Seq<FrameView>,
    tags: EnrichedTagsView,
    description: Seq<char>,
    value: Seq<char>,
)
    ensures
        tags.recording_mbid is Some ==> enriched_frames(frames, tags).contains(
            extended_frame("MusicBrainz Recording Id"@, tags.recording_mbid->0),
        ),
        tags.release_mbid is Some ==> enriched_frames(frames, tags).contains(
            extended_frame("MusicBrainz Album Id"@, tags.release_mbid->0),
        ),
        tags.recording_mbid is None && tags.release_mbid is None ==> of_id(
            enriched_frames(frames, tags),
            "TXXX"@,
        ) == of_id(frames, "TXXX"@),
        description != "MusicBrainz Recording Id"@ && description != "MusicBrainz Album Id"@
            && frames.contains(extended_frame(description, value)) ==> enriched_frames(
            frames,
            tags,
        ).contains(extended_frame(description, value)),
{
    lemma_written_ids_differ();
    let ids = written_ids();
    assert(ids[0] == "TPE1"@ && ids[1] == "TALB"@ && ids[2] == "TYER"@ && ids[3] == "TRCK"@
        && ids[4] == "TCON"@ && ids[5] == "TXXX"@);
    lemma_steps_elsewhere(frames, tags, "TXXX"@);
    reveal_strlit("MusicBrainz Recording Id");
    reveal_strlit("MusicBrainz Album Id");
    assert("MusicBrainz Recording Id"@[12] != "MusicBrainz Album Id"@[12]);
    let f = before_ids(frames, tags);
    let g = put_extended(f, "MusicBrainz Recording Id"@, tags.recording_mbid);
    let other = extended_frame(description, value);
    if frames.contains(other) {
        lemma_of_id_holds(frames, other);
        lemma_of_id_holds(f, other);
    }
    if let Some(v) = tags.recording_mbid {
        let new = extended_frame("MusicBrainz Recording Id"@, v);
        lemma_put_holds(f, new, other);
        if let Some(w) = tags.release_mbid {
            lemma_put_holds(g, extended_frame("MusicBrainz Album Id"@, w), new);
        }
    }
    if let Some(w) = tags.release_mbid {
        lemma_put_holds(g, extended_frame("MusicBrainz Album Id"@, w), other);
    }
}

/// A frame is among all just where it is among those with its id.
proof fn lemma_of_id_holds(frames: Seq<FrameView>, frame: FrameView)
    ensures
        frames.contains(frame) <==> of_id(frames, frame.id).contains(frame),
    decreases frames.len(),
{
    if frames.len() > 0 {
        let rest = frames.drop_first();
        lemma_of_id_holds(rest, frame);
        let below = of_id(rest, frame.id);
        let all = of_id(frames, frame.id);
        if frames.contains(frame) {
            let k = choose|k: int| 0 <= k < frames.len() && frames[k] == frame;
            if k == 0 {
                assert(all[0] == frame);
            } else {
                assert(rest[k - 1] == frame);
                let m = choose|m: int| 0 <= m < below.len() && below[m] == frame;
                if frames[0].id == frame.id {
                    assert(all[m + 1] == frame);
                }
            }
        }
        if all.contains(frame) {
            let m = choose|m: int| 0 <= m < all.len() && all[m] == frame;
            if frames[0].id == frame.id {
                if m == 0 {
                    assert(frames[0] == frame);
                } else {
                    assert(below[m - 1] == frame);
                    let k = choose|k: int| 0 <= k < rest.len() && rest[k] == frame;
                    assert(frames[k + 1] == frame);
                }
            } else {
                let k = choose|k: int| 0 <= k < rest.len() && rest[k] == frame;
                assert(frames[k + 1] == frame);
            }
        }
    }
}

/// Where only the track number was found out and the tag held none, the track frame holds just that
/// number; where only the number of tracks was, it is that of the first track.
pub proof fn law_lone_track_numbers_are_written(
    frames: Seq<FrameView>,
    tags: EnrichedTagsView,
    n: u32,
)
    requires
        of_id(frames, "TRCK"@).len() == 0,
    ensures
        tags.track_number == Some(n) && tags.total_tracks is None ==> of_id(
            enriched_frames(frames, tags),
            "TRCK"@,
        ) == seq![text_frame("TRCK"@, decimal(n as nat))],
        tags.track_number is None && tags.total_tracks == Some(n) ==> of_id(
            enriched_frames(frames, tags),
            "TRCK"@,
        ) == seq![text_frame("TRCK"@, seq!['1', '/'] + decimal(n as nat))],
        tags.track_number is None && tags.total_tracks is None ==> of_id(
            enriched_frames(frames, tags),
            "TRCK"@,
        ).len() == 0,
{
    lemma_written_ids_differ();
    let ids = written_ids();
    assert(ids[0] == "TPE1"@ && ids[1] == "TALB"@ && ids[2] == "TYER"@ && ids[3] == "TRCK"@
        && ids[4] == "TCON"@ && ids[5] == "TXXX"@);
    lemma_steps_elsewhere(frames, tags, "TRCK"@);
    let f = before_tracks(frames, tags);
    lemma_first_text(f, "TRCK"@);
    lemma_put_text(f, "TRCK"@, decimal(n as nat));
    lemma_put_text(f, "TRCK"@, seq!['1', '/'] + decimal(n as nat));
}

/// A year of four digits or more is written as it is; a shorter one has zeros before it.
pub proof fn law_year_has_four_digits(year: nat)
    ensures
        year >= 1000 ==> year_text(year as int) == decimal(year),
        year_text(year as int).len() >= 4,
        value_of(year_text(year as int)) == year,
{
    law_decimal_reads_back(year);
    let d = decimal(year);
    if year >= 1000 {
        assert(decimal(year / 10).len() + 1 == d.len());
        assert(decimal(year / 10 / 10).len() + 1 == decimal(year / 10).len());
        assert(decimal(year / 10 / 10 / 10).len() + 1 == decimal(year / 10 / 10).len());
    }
    lemma_padding_keeps_the_value(d, 4);
}

proof fn lemma_padding_keeps_the_value(s: Seq<char>, width: int)
    ensures
        zero_padded(s, width).len() >= width,
        value_of(zero_padded(s, width)) == value_of(s),
    decreases width - s.len(),
{
    if s.len() < width {
        lemma_leading_zero(s);
        lemma_padding_keeps_the_value(seq!['0'] + s, width);
    }
}

proof fn lemma_leading_zero(s: Seq<char>)
    ensures
        value_of(seq!['0'] + s) == value_of(s),
    decreases s.len(),
{
    let t = seq!['0'] + s;
    if s.len() == 0 {
        assert(t.drop_last() =~= seq![]);
        assert(value_of(t.drop_last()) == 0);
    } else {
        assert(t.drop_last() =~= seq!['0'] + s.drop_last());
        lemma_leading_zero(s.drop_last());
    }
}

} // verus!
