//! The catalog: the songs that can be found, each under its identifier and
//! under the lower-case form of its title.

use vstd::prelude::*;
use crate::song::{Song, SongView};
use crate::text::{chars_of, contains_chars, contains_text, lowercase};

verus! {

/// Whether no two songs of `songs` share an identifier.
pub open spec fn distinct_ids(songs: Seq<SongView>) -> bool {
    forall|i: int, j: int|
        0 <= i < songs.len() && 0 <= j < songs.len() && #[trigger] songs[i].id
            == #[trigger] songs[j].id ==> i == j
}

/// Whether a song of `songs` has the identifier `id`.
pub open spec fn has_id(songs: Seq<SongView>, id: usize) -> bool {
    exists|i: int| 0 <= i < songs.len() && #[trigger] songs[i].id == id
}

/// The songs of `offered` that a catalog takes in: those that are well
/// formed and whose identifier no earlier song that was taken in has.
pub open spec fn admitted(offered: Seq<SongView>) -> Seq<SongView>
    decreases offered.len(),
{
    if offered.len() == 0 {
        Seq::empty()
    } else {
        let earlier = admitted(offered.drop_last());
        if offered.last().well_formed() && !has_id(earlier, offered.last().id) {
            earlier.push(offered.last())
        } else {
            earlier
        }
    }
}

/// Whether one of `needles` is a part of `keyword`.
pub open spec fn holds_any(keyword: Seq<char>, needles: Seq<Seq<char>>) -> bool {
    exists|k: int| 0 <= k < needles.len() && contains_text(keyword, #[trigger] needles[k])
}

/// The test that a song passes if the lower-case form of its title holds one
/// of `needles`.
pub open spec fn holding(needles: Seq<Seq<char>>) -> spec_fn(SongView) -> bool {
    |song: SongView| holds_any(lowercase(song.title), needles)
}

/// The lower-case forms of `tokens`.
pub open spec fn lowered(tokens: Seq<Seq<char>>) -> Seq<Seq<char>> {
    tokens.map_values(|token: Seq<char>| lowercase(token))
}

/// A choice among songs without a common identifier has no common
/// identifier either: whatever a lookup finds, it finds each song once.
pub proof fn lemma_filter_keeps_ids_distinct(songs: Seq<SongView>, test: spec_fn(SongView) -> bool)
    requires
        distinct_ids(songs),
    ensures
        distinct_ids(songs.filter(test)),
    decreases songs.len(),
{
    reveal(Seq::filter);
    if songs.len() > 0 {
        let front = songs.drop_last();
        assert forall|i: int, j: int|
            0 <= i < front.len() && 0 <= j < front.len() && #[trigger] front[i].id
                == #[trigger] front[j].id implies i == j by {
            assert(front[i] == songs[i]);
            assert(front[j] == songs[j]);
        }
        lemma_filter_keeps_ids_distinct(front, test);
        let chosen = front.filter(test);
        if test(songs.last()) {
            let all = songs.filter(test);
            assert(all == chosen.push(songs.last()));
            assert forall|i: int, j: int|
                0 <= i < all.len() && 0 <= j < all.len() && #[trigger] all[i].id
                    == #[trigger] all[j].id implies i == j by {
                if i < chosen.len() && j == chosen.len() {
                    lemma_chosen_is_offered(front, test, i);
                    let k = choose|k: int| 0 <= k < front.len() && front[k] == chosen[i];
                    assert(songs[k].id == songs[songs.len() - 1].id);
                } else if j < chosen.len() && i == chosen.len() {
                    lemma_chosen_is_offered(front, test, j);
                    let k = choose|k: int| 0 <= k < front.len() && front[k] == chosen[j];
                    assert(songs[k].id == songs[songs.len() - 1].id);
                } else if i < chosen.len() && j < chosen.len() {
                    assert(chosen[i].id == chosen[j].id);
                }
            }
        }
    }
}

/// Every song of a choice is one of the songs that were offered.
proof fn lemma_chosen_is_offered(songs: Seq<SongView>, test: spec_fn(SongView) -> bool, i: int)
    requires
        0 <= i < songs.filter(test).len(),
    ensures
        exists|k: int| 0 <= k < songs.len() && songs[k] == songs.filter(test)[i],
{
    let chosen = songs.filter(test);
    assert(chosen.contains(chosen[i]));
    songs.lemma_filter_contains_rev(test, chosen[i]);
}

/// A song as the catalog holds it.
struct IndexRecord {
    /// The identifier under which the song is found.
    id: usize,
    /// The lower-case form of the title, in which tokens are looked up.
    keyword: Vec<char>,
    /// The song itself.
    song: Song,
}

impl IndexRecord {
    /// Whether identifier and keyword belong to the song.
    spec fn consistent(&self) -> bool {
        &&& self.id == self.song.id
        &&& self.keyword@ == lowercase(self.song.title@)
        &&& self.song@.well_formed()
    }
}

/// The songs of `records`, in their order.
spec fn songs_of(records: Seq<IndexRecord>) -> Seq<SongView> {
    Seq::new(records.len(), |i: int| records[i].song@)
}

/// Whether `records` can be the content of a catalog.
spec fn sound(records: Seq<IndexRecord>) -> bool {
    &&& forall|i: int| 0 <= i < records.len() ==> (#[trigger] records[i]).consistent()
    &&& distinct_ids(songs_of(records))
}

/// The catalog of songs.
pub struct MaimaiDB {
    records: Vec<IndexRecord>,
}

impl View for MaimaiDB {
    type V = Seq<SongView>;

    closed spec fn view(&self) -> Seq<SongView> {
        songs_of(self.records@)
    }
}

/// The texts that `needles` holds.
spec fn texts_of(needles: Seq<Vec<char>>) -> Seq<Seq<char>> {
    needles.map_values(|needle: Vec<char>| needle@)
}

/// Whether `keyword` holds one of `needles`.
fn holds_one(keyword: &Vec<char>, needles: &Vec<Vec<char>>) -> (found: bool)
    ensures
        found == holds_any(keyword@, texts_of(needles@)),
{
    let mut k: usize = 0;
    while k < needles.len()
        invariant
            k <= needles.len(),
            forall|j: int| 0 <= j < k ==> !contains_text(keyword@, #[trigger] texts_of(needles@)[j]),
        decreases needles.len() - k,
    {
        if contains_chars(keyword, &needles[k]) {
            assert(texts_of(needles@)[k as int] == needles[k as int]@);
            return true;
        }
        k += 1;
    }
    false
}

/// The position of the record with identifier `id`, if there is one.
fn position_of(records: &Vec<IndexRecord>, id: usize) -> (at: Option<usize>)
    ensures
        at matches Some(i) ==> i < records.len() && records[i as int].id == id,
        at is None ==> forall|i: int| 0 <= i < records.len() ==> records[i].id != id,
{
    let mut i: usize = 0;
    while i < records.len()
        invariant
            i <= records.len(),
            forall|j: int| 0 <= j < i ==> records[j].id != id,
        decreases records.len() - i,
    {
        if records[i].id == id {
            return Some(i);
        }
        i += 1;
    }
    None
}

impl MaimaiDB {
    #[verifier::type_invariant]
    spec fn well_formed(&self) -> bool {
        sound(self.records@)
    }

    /// A catalog without songs.
    pub fn new() -> (db: Self)
        ensures
            db@ == Seq::<SongView>::empty(),
    {
        let db = MaimaiDB { records: Vec::new() };
        assert(db@ =~= Seq::<SongView>::empty());
        db
    }

    /// The number of songs in the catalog.
    pub fn len(&self) -> (n: usize)
        ensures
            n == self@.len(),
    {
        self.records.len()
    }

    /// Replaces the content of the catalog by the songs of `songs`.
    ///
    /// The catalog is emptied first. Then each song is taken in, in the order
    /// given, unless it is not well formed or its identifier is taken
    /// already; such a song is skipped and the others still go in. The
    /// result is the number of songs that were skipped.
    pub fn update_database(&mut self, songs: &Vec<Song>) -> (skipped: usize)
        ensures
            final(self)@ == admitted(songs.deep_view()),
            skipped == songs.len() - final(self)@.len(),
            distinct_ids(final(self)@),
            forall|i: int| 0 <= i < final(self)@.len() ==> (#[trigger] final(self)@[i]).well_formed(),
    {
        let mut records: Vec<IndexRecord> = Vec::new();
        let mut skipped: usize = 0;
        let mut i: usize = 0;
        assert(songs.deep_view().take(0) =~= Seq::<SongView>::empty());
        assert(songs_of(records@) =~= Seq::<SongView>::empty());
        while i < songs.len()
            invariant
                i <= songs.len(),
                sound(records@),
                songs_of(records@) == admitted(songs.deep_view().take(i as int)),
                skipped + records.len() == i,
            decreases songs.len() - i,
        {
            let song = &songs[i];
            let ghost before = records@;
            proof {
                let seen = songs.deep_view().take(i as int);
                let next = songs.deep_view().take(i + 1);
                assert(next.drop_last() =~= seen);
                assert(next.last() == song@);
            }
            let taken = position_of(&records, song.id);
            proof {
                if taken is Some {
                    assert(songs_of(before)[taken->0 as int].id == song.id);
                } else {
                    assert forall|j: int| 0 <= j < songs_of(before).len() implies songs_of(
                        before,
                    )[j].id != song.id by {
                        assert(before[j].consistent());
                    }
                }
            }
            if song.is_well_formed() && taken.is_none() {
                let lowered = song.title.as_str().to_lowercase();
                let record = IndexRecord {
                    id: song.id,
                    keyword: chars_of(lowered.as_str()),
                    song: song.clone(),
                };
                records.push(record);
                proof {
                    assert(songs_of(records@) =~= songs_of(before).push(song@));
                    assert forall|a: int, b: int|
                        0 <= a < records.len() && 0 <= b < records.len() && #[trigger] songs_of(
                            records@,
                        )[a].id == #[trigger] songs_of(records@)[b].id implies a == b by {
                        if a < before.len() && b < before.len() {
                            assert(songs_of(before)[a].id == songs_of(before)[b].id);
                        } else if a < before.len() {
                            assert(songs_of(before)[a].id == song.id);
                        } else if b < before.len() {
                            assert(songs_of(before)[b].id == song.id);
                        }
                    }
                }
            } else {
                skipped += 1;
            }
            i += 1;
        }
        assert(songs.deep_view().take(songs.len() as int) =~= songs.deep_view());
        self.records = records;
        skipped
    }

    /// The song with the identifier `id`, if the catalog holds one. No two
    /// songs of a catalog share an identifier, so there is at most one.
    pub fn search_song_by_id(&self, id: usize) -> (found: Option<Song>)
        ensures
            found matches Some(song) ==> song@.id == id && self@.contains(song@),
            found is None <==> !has_id(self@, id),
            distinct_ids(self@),
    {
        proof {
            use_type_invariant(self);
        }
        match position_of(&self.records, id) {
            Some(at) => {
                let song = self.records[at].song.clone();
                proof {
                    assert(self.records@[at as int].consistent());
                    assert(self@[at as int] == song@);
                }
                Some(song)
            },
            None => {
                proof {
                    assert forall|i: int| 0 <= i < self@.len() implies self@[i].id != id by {
                        assert(self.records@[i].consistent());
                    }
                }
                None
            },
        }
    }

    /// The songs whose keyword holds one of `needles`, in catalog order.
    fn select(&self, needles: &Vec<Vec<char>>) -> (found: Vec<Song>)
        ensures
            found.deep_view() == self@.filter(holding(texts_of(needles@))),
            distinct_ids(found.deep_view()),
    {
        proof {
            use_type_invariant(self);
            lemma_filter_keeps_ids_distinct(self@, holding(texts_of(needles@)));
        }
        let ghost test = holding(texts_of(needles@));
        let mut found: Vec<Song> = Vec::new();
        let mut i: usize = 0;
        assert(self@.take(0) =~= Seq::<SongView>::empty());
        assert(found.deep_view() =~= Seq::<SongView>::empty());
        while i < self.records.len()
            invariant
                i <= self.records.len(),
                sound(self.records@),
                test == holding(texts_of(needles@)),
                found.deep_view() == self@.take(i as int).filter(test),
            decreases self.records.len() - i,
        {
            let record = &self.records[i];
            let ghost before = found.deep_view();
            proof {
                assert(record.consistent());
                assert(self@.take(i + 1) =~= self@.take(i as int).push(record.song@));
                self@.take(i as int).lemma_filter_push(record.song@, test);
            }
            if holds_one(&record.keyword, needles) {
                found.push(record.song.clone());
                assert(found.deep_view() =~= before.push(record.song@));
            }
            i += 1;
        }
        assert(self@.take(self.records.len() as int) =~= self@);
        found
    }

    /// The songs whose title holds `token`, in catalog order. Upper and lower
    /// case are not told apart: the lower-case form of the token is looked up
    /// in the lower-case form of the title.
    pub fn lookup_by_token(&self, token: &str) -> (found: Vec<Song>)
        ensures
            found.deep_view() == self@.filter(holding(seq![lowercase(token@)])),
            distinct_ids(found.deep_view()),
    {
        let mut needles: Vec<Vec<char>> = Vec::new();
        let lowered = token.to_lowercase();
        needles.push(chars_of(lowered.as_str()));
        assert(texts_of(needles@) =~= seq![lowercase(token@)]);
        self.select(&needles)
    }

    /// The songs whose title holds at least one of `tokens`, in catalog
    /// order, each once. Upper and lower case are not told apart.
    pub fn lookup_by_tokens(&self, tokens: &Vec<String>) -> (found: Vec<Song>)
        ensures
            found.deep_view() == self@.filter(holding(lowered(tokens.deep_view()))),
            distinct_ids(found.deep_view()),
    {
        let mut needles: Vec<Vec<char>> = Vec::new();
        let mut k: usize = 0;
        while k < tokens.len()
            invariant
                k <= tokens.len(),
                needles.len() == k,
                forall|j: int| 0 <= j < k ==> needles[j]@ == lowercase(tokens[j]@),
            decreases tokens.len() - k,
        {
            let lowered = tokens[k].as_str().to_lowercase();
            needles.push(chars_of(lowered.as_str()));
            k += 1;
        }
        assert(texts_of(needles@) =~= lowered(tokens.deep_view()));
        self.select(&needles)
    }
}

} // verus!
