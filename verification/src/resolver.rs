//! Finding songs: by identifier, or by a free-text query that is cut into
//! words, looked up word by word and ranked by edit distance.

use vstd::prelude::*;
use crate::catalog::{admitted, distinct_ids, has_id, holding, lowered, MaimaiDB};
use crate::normalizer::{
    edit_distance, keywords, keywords_of, levenshtein_distance, traditional_form,
    zhconv_traditional,
};
use crate::ranking::{
    in_rank_order, keep_first, lemma_entry_position_unique, lemma_rank_all, rank_all,
};
use crate::song::{Song, SongView};
use crate::text::{contains_text, lowercase};

verus! {

/// The edit distance from which on a title is no match for a query.
pub const DISTANCE_CEILING: usize = 100;

/// A song that a query has found, with the edit distance between the query
/// and its title.
pub struct Scored {
    pub distance: nat,
    pub song: SongView,
}

/// Whether candidate `a` stands before candidate `b`: it has the smaller
/// distance, or the same distance and the smaller identifier.
pub open spec fn closer(a: Scored, b: Scored) -> bool {
    a.distance < b.distance || (a.distance == b.distance && a.song.id < b.song.id)
}

/// The order of candidates as a relation.
pub open spec fn candidate_order() -> spec_fn(Scored, Scored) -> bool {
    |a: Scored, b: Scored| closer(a, b)
}

/// `song` with its distance from `query`.
pub open spec fn scored(song: SongView, query: Seq<char>) -> Scored {
    Scored { distance: edit_distance(query, song.title), song }
}

/// The test that a candidate passes if its distance is below the ceiling.
pub open spec fn within_reach() -> spec_fn(Scored) -> bool {
    |candidate: Scored| candidate.distance < DISTANCE_CEILING
}

/// The candidates among `songs` for `query`: each song with its distance,
/// without those at or above the ceiling, closest first.
pub open spec fn ranked_candidates(songs: Seq<SongView>, query: Seq<char>) -> Seq<Scored> {
    rank_all(
        songs.map_values(|song: SongView| scored(song, query)).filter(within_reach()),
        candidate_order(),
    )
}

/// The `limit` songs of `songs` whose titles are closest to `query`, closest
/// first; fewer if fewer are within reach.
pub open spec fn best_matches(songs: Seq<SongView>, query: Seq<char>, limit: nat) -> Seq<SongView> {
    keep_first(ranked_candidates(songs, query), limit).map_values(|c: Scored| c.song)
}

/// The songs of `catalog` that a lookup of the words of `text` finds.
pub open spec fn found_by(catalog: Seq<SongView>, text: Seq<char>) -> Seq<SongView> {
    catalog.filter(holding(lowered(keywords_of(text))))
}

/// The answer to a query for `query` in `catalog`.
///
/// If a lookup of the words of the query finds songs, these are ranked
/// against the query. If it finds none, the traditional form of the query
/// takes the place of the query, in the lookup and in the ranking.
pub open spec fn resolved(catalog: Seq<SongView>, query: Seq<char>, limit: nat) -> Seq<SongView> {
    if found_by(catalog, query).len() > 0 {
        best_matches(found_by(catalog, query), query, limit)
    } else {
        best_matches(
            found_by(catalog, traditional_form(query)),
            traditional_form(query),
            limit,
        )
    }
}

/// The candidates for a query stand closest first, those of equal distance by
/// identifier; they are the songs within reach, each once for each time it
/// was offered.
pub proof fn lemma_ranked_candidates(songs: Seq<SongView>, query: Seq<char>)
    ensures
        in_rank_order(ranked_candidates(songs, query), candidate_order()),
        ranked_candidates(songs, query).to_multiset() == songs.map_values(
            |song: SongView| scored(song, query),
        ).filter(within_reach()).to_multiset(),
        ranked_candidates(songs, query).len() <= songs.len(),
{
    let offered = songs.map_values(|song: SongView| scored(song, query));
    lemma_rank_all(offered.filter(within_reach()), candidate_order());
    offered.lemma_filter_len(within_reach());
}

/// A song is found by any word of its title: a song of the catalog whose
/// title holds one of the words of the query, and lies within reach of the
/// query, is part of the answer, if the answer may be long enough to hold
/// every song of the catalog.
pub proof fn lemma_word_of_title_finds_song(
    catalog: Seq<SongView>,
    query: Seq<char>,
    limit: nat,
    song: SongView,
    word: int,
)
    requires
        catalog.contains(song),
        0 <= word < keywords_of(query).len(),
        contains_text(lowercase(song.title), lowercase(keywords_of(query)[word])),
        edit_distance(query, song.title) < DISTANCE_CEILING,
        limit >= catalog.len(),
    ensures
        resolved(catalog, query, limit).contains(song),
{
    broadcast use vstd::seq_lib::group_to_multiset_ensures;

    let test = holding(lowered(keywords_of(query)));
    let found = found_by(catalog, query);
    assert(test(song)) by {
        assert(lowered(keywords_of(query))[word] == lowercase(keywords_of(query)[word]));
    }
    let at = choose|i: int| 0 <= i < catalog.len() && catalog[i] == song;
    catalog.lemma_filter_contains(test, at);
    catalog.lemma_filter_len(test);
    assert(found.contains(song));
    let place = choose|i: int| 0 <= i < found.len() && found[i] == song;
    let offered = found.map_values(|s: SongView| scored(s, query));
    let entry = scored(song, query);
    assert(offered[place] == entry);
    offered.lemma_filter_contains(within_reach(), place);
    offered.lemma_filter_len(within_reach());
    lemma_ranked_candidates(found, query);
    let ranked = ranked_candidates(found, query);
    assert(offered.filter(within_reach()).to_multiset().count(entry) > 0);
    assert(ranked.contains(entry));
    let rank = choose|i: int| 0 <= i < ranked.len() && ranked[i] == entry;
    assert(keep_first(ranked, limit) == ranked);
    assert(best_matches(found, query, limit)[rank] == song);
}

/// A query that finds no song, neither by its own words nor by those of its
/// traditional form, has the empty answer.
pub proof fn lemma_nothing_found_nothing_returned(
    catalog: Seq<SongView>,
    query: Seq<char>,
    limit: nat,
)
    requires
        found_by(catalog, query).len() == 0,
        found_by(catalog, traditional_form(query)).len() == 0,
    ensures
        resolved(catalog, query, limit) == Seq::<SongView>::empty(),
{
    let none = found_by(catalog, traditional_form(query));
    let offered = none.map_values(|song: SongView| scored(song, traditional_form(query)));
    offered.lemma_filter_len(within_reach());
    assert(ranked_candidates(none, traditional_form(query)) =~= Seq::<Scored>::empty());
    assert(resolved(catalog, query, limit) =~= Seq::<SongView>::empty());
}

/// A song that a query has found, with the edit distance between the query
/// and its title.
struct Candidate {
    distance: usize,
    song: Song,
}

impl View for Candidate {
    type V = Scored;

    closed spec fn view(&self) -> Scored {
        Scored { distance: self.distance as nat, song: self.song@ }
    }
}

/// What `candidates` holds.
spec fn views_of(candidates: Seq<Candidate>) -> Seq<Scored> {
    candidates.map_values(|c: Candidate| c@)
}

/// Whether `a` stands before `b`.
fn stands_before(a: &Candidate, b: &Candidate) -> (before: bool)
    ensures
        before == closer(a@, b@),
{
    a.distance < b.distance || (a.distance == b.distance && a.song.id < b.song.id)
}

/// Ranks `candidates` against `name` and gives the first `count` of them.
///
/// Each song is scored with the edit distance between `name` and its title.
/// Songs at a distance of `DISTANCE_CEILING` or more are left out. The others
/// come closest first, those of equal distance by identifier.
pub fn similar_list_top(candidates: &Vec<Song>, name: &str, count: usize) -> (songs: Vec<Song>)
    ensures
        songs.deep_view() == best_matches(candidates.deep_view(), name@, count as nat),
        songs.len() <= count,
        songs.len() <= candidates.len(),
{
    let ghost order = candidate_order();
    let ghost offered = candidates.deep_view().map_values(|song: SongView| scored(song, name@));
    let mut ranked: Vec<Candidate> = Vec::new();
    let mut i: usize = 0;
    assert(offered.take(0) =~= Seq::<Scored>::empty());
    assert(views_of(ranked@) =~= Seq::<Scored>::empty());
    while i < candidates.len()
        invariant
            i <= candidates.len(),
            order == candidate_order(),
            offered == candidates.deep_view().map_values(|song: SongView| scored(song, name@)),
            views_of(ranked@) == rank_all(offered.take(i as int).filter(within_reach()), order),
            ranked.len() <= i,
        decreases candidates.len() - i,
    {
        let song = &candidates[i];
        let distance = levenshtein_distance(name, song.title.as_str());
        let ghost before = views_of(ranked@);
        let ghost entering = scored(song@, name@);
        proof {
            let seen = offered.take(i as int);
            assert(offered.take(i + 1) =~= seen.push(entering));
            seen.lemma_filter_push(entering, within_reach());
            if entering.distance < DISTANCE_CEILING {
                let kept = seen.filter(within_reach()).push(entering);
                assert(kept.drop_last() =~= seen.filter(within_reach()));
                assert(kept.last() == entering);
            }
        }
        if distance < DISTANCE_CEILING {
            let candidate = Candidate { distance, song: song.clone() };
            assert(candidate@ == entering);
            let mut at: usize = 0;
            while at < ranked.len() && !stands_before(&candidate, &ranked[at])
                invariant
                    at <= ranked.len(),
                    candidate@ == entering,
                    before == views_of(ranked@),
                    forall|k: int| 0 <= k < at ==> !closer(entering, #[trigger] before[k]),
                decreases ranked.len() - at,
            {
                at += 1;
            }
            proof {
                assert forall|k: int| 0 <= k < at implies !order(entering, #[trigger] before[k]) by {}
                if at < ranked.len() {
                    assert(before[at as int] == ranked@[at as int]@);
                }
                lemma_entry_position_unique(before, entering, order, at as int);
            }
            ranked.insert(at, candidate);
            assert(views_of(ranked@) =~= before.insert(at as int, entering));
        }
        i += 1;
    }
    assert(offered.take(candidates.len() as int) =~= offered);
    let kept: usize = if ranked.len() <= count {
        ranked.len()
    } else {
        count
    };
    let ghost standing = keep_first(views_of(ranked@), count as nat);
    let mut songs: Vec<Song> = Vec::new();
    let mut k: usize = 0;
    while k < kept
        invariant
            k <= kept,
            kept <= ranked.len(),
            songs.len() == k,
            forall|j: int| 0 <= j < k ==> songs[j]@ == (#[trigger] ranked@[j])@.song,
        decreases kept - k,
    {
        songs.push(ranked[k].song.clone());
        k += 1;
    }
    assert(songs.deep_view() =~= standing.map_values(|c: Scored| c.song)) by {
        assert(standing.len() == kept);
        assert forall|j: int| 0 <= j < kept implies songs.deep_view()[j] == standing[j].song by {
            assert(standing[j] == views_of(ranked@)[j]);
            assert(views_of(ranked@)[j] == ranked@[j]@);
        }
    }
    songs
}

/// The script in which a query is looked up.
#[derive(Clone, Copy, Debug, PartialEq, Eq, Structural)]
pub enum ScriptPhase {
    /// The query as it was given.
    Primary,
    /// The traditional form of the query.
    Alternate,
}

/// What follows a lookup.
#[derive(Clone, Copy, Debug, PartialEq, Eq, Structural)]
pub enum NextStep {
    /// Rank what the lookup has found.
    Rank,
    /// Look up again, in the alternate script.
    Retry,
}

/// What follows a lookup in `phase` that has found `found` songs: a lookup of
/// the query as given that finds nothing is tried once more in the alternate
/// script; every other lookup is final.
pub open spec fn step_after(phase: ScriptPhase, found: nat) -> NextStep {
    if phase == ScriptPhase::Primary && found == 0 {
        NextStep::Retry
    } else {
        NextStep::Rank
    }
}

impl ScriptPhase {
    /// Decides what follows a lookup in this phase that has found `found` songs.
    pub fn after_lookup(self, found: usize) -> (next: NextStep)
        ensures
            next == step_after(self, found as nat),
    {
        match self {
            ScriptPhase::Primary => {
                if found == 0 {
                    NextStep::Retry
                } else {
                    NextStep::Rank
                }
            },
            ScriptPhase::Alternate => NextStep::Rank,
        }
    }
}

/// What one phase of a search has come to.
pub enum PhaseOutcome {
    /// The lookup has found songs, or was the last one; these are the ranked matches.
    Matches(Vec<Song>),
    /// The lookup has found nothing and is to be tried in the alternate script.
    TryAlternate,
}

/// The searcher: it answers queries from the catalog that it holds.
pub struct DXProberClient {
    db: MaimaiDB,
}

impl View for DXProberClient {
    type V = Seq<SongView>;

    closed spec fn view(&self) -> Seq<SongView> {
        self.db@
    }
}

impl DXProberClient {
    /// A searcher over `db`.
    pub fn new(db: MaimaiDB) -> (client: Self)
        ensures
            client@ == db@,
    {
        DXProberClient { db }
    }

    /// The catalog that the searcher holds.
    pub fn catalog(&self) -> (db: &MaimaiDB)
        ensures
            db@ == self@,
    {
        &self.db
    }

    /// Replaces the content of the catalog by `songs` and gives the number of
    /// songs that were skipped.
    pub fn update_data(&mut self, songs: &Vec<Song>) -> (skipped: usize)
        ensures
            final(self)@ == admitted(songs.deep_view()),
            skipped == songs.len() - final(self)@.len(),
    {
        self.db.update_database(songs)
    }

    /// The song with the identifier `id`, if there is one; at most one song
    /// has it.
    pub fn search_songs_by_id(&self, id: usize) -> (found: Option<Song>)
        ensures
            found matches Some(song) ==> song@.id == id && self@.contains(song@),
            found is None <==> !has_id(self@, id),
            distinct_ids(self@),
    {
        self.db.search_song_by_id(id)
    }

    /// The `count` songs whose titles are closest to `name`; none if the
    /// query matches no song.
    pub fn search_songs_by_title(&self, name: &str, count: usize) -> (songs: Vec<Song>)
        ensures
            songs.deep_view() == resolved(self@, name@, count as nat),
            songs.len() <= count,
    {
        self.db.search_songs_by_title(name, count)
    }
}

impl MaimaiDB {
    /// One phase of a search: looks up `words`, and either ranks what was
    /// found against `text` or asks for the alternate script.
    pub fn search_phase(
        &self,
        phase: ScriptPhase,
        text: &str,
        words: &Vec<String>,
        count: usize,
    ) -> (outcome: PhaseOutcome)
        ensures
            step_after(
                phase,
                self@.filter(holding(lowered(words.deep_view()))).len(),
            ) == NextStep::Retry ==> outcome is TryAlternate,
            step_after(
                phase,
                self@.filter(holding(lowered(words.deep_view()))).len(),
            ) == NextStep::Rank ==> outcome is Matches && outcome->Matches_0.deep_view()
                == best_matches(
                self@.filter(holding(lowered(words.deep_view()))),
                text@,
                count as nat,
            ),
            outcome matches PhaseOutcome::Matches(songs) ==> songs.len() <= count,
    {
        let found = self.lookup_by_tokens(words);
        match phase.after_lookup(found.len()) {
            NextStep::Rank => PhaseOutcome::Matches(similar_list_top(&found, text, count)),
            NextStep::Retry => PhaseOutcome::TryAlternate,
        }
    }

    /// The `count` songs whose titles are closest to `name`.
    ///
    /// The query is cut into words, the stop words are dropped, and every
    /// song whose title holds one of the words is a candidate. If there is no
    /// candidate, the same is done once more with the traditional form of the
    /// query. The candidates within reach come closest first. A query that
    /// matches nothing has the empty answer.
    pub fn search_songs_by_title(&self, name: &str, count: usize) -> (songs: Vec<Song>)
        ensures
            songs.deep_view() == resolved(self@, name@, count as nat),
            songs.len() <= count,
    {
        let words = keywords(name);
        match self.search_phase(ScriptPhase::Primary, name, &words, count) {
            PhaseOutcome::Matches(songs) => songs,
            PhaseOutcome::TryAlternate => {
                let alternate = zhconv_traditional(name);
                let words = keywords(alternate.as_str());
                match self.search_phase(ScriptPhase::Alternate, alternate.as_str(), &words, count) {
                    PhaseOutcome::Matches(songs) => songs,
                    PhaseOutcome::TryAlternate => Vec::new(),
                }
            },
        }
    }
}

/// The song with the identifier `id` in the catalog of `client`, if there is one.
pub fn search_songs_by_id(client: &DXProberClient, id: usize) -> (found: Option<Song>)
    ensures
        found matches Some(song) ==> song@.id == id && client@.contains(song@),
        found is None <==> !has_id(client@, id),
{
    client.search_songs_by_id(id)
}

/// The `count` songs in the catalog of `client` whose titles are closest to
/// `param`, or nothing if the query matches no song: it is the caller who
/// decides what a query without a match leads to.
pub fn search_songs_by_title(client: &DXProberClient, param: &str, count: usize) -> (found: Option<
    Vec<Song>,
>)
    ensures
        found is None <==> resolved(client@, param@, count as nat).len() == 0,
        found matches Some(songs) ==> songs.deep_view() == resolved(
            client@,
            param@,
            count as nat,
        ),
{
    let songs = client.search_songs_by_title(param, count);
    if songs.len() == 0 {
        None
    } else {
        Some(songs)
    }
}

} // verus!
