//! The record store: the authoritative in-memory list of movie records and
//! the rules by which it is loaded, appended to, and listed.
use vstd::prelude::*;
use crate::error::StorageError;
use crate::models::{Movie, NewMovie, Timestamp, not_before, record_matches_request};

verus! {

/// How many identifiers `add` draws before it gives up on finding an unused one.
pub const MAX_ID_DRAWS: u32 = 8;

/// Relies on uuid::Uuid::new_v4 and Uuid::as_u128: a random UUID with the
/// version nibble 4 and the RFC 4122 variant bits `10`, as its 128 bits.
#[verifier::external_body]
fn fresh_uuid() -> (r: u128)
    ensures
        (r >> 76u128) & 0xfu128 == 4,
        (r >> 62u128) & 0x3u128 == 2,
{
    uuid::Uuid::new_v4().as_u128()
}

/// Relies on chrono's `From<SystemTime> for DateTime<Utc>`, applied to the
/// system clock's reading: seconds since the Unix epoch (negative before
/// it) and the nanoseconds past them.
#[verifier::external_body]
fn utc_now() -> (r: Timestamp)
    ensures
        r.nanos < 1_000_000_000,
{
    let now = chrono::DateTime::<chrono::Utc>::from(std::time::SystemTime::now());
    Timestamp { secs: now.timestamp(), nanos: now.timestamp_subsec_nanos() }
}

/// The version and variant bits of a random (version 4) UUID.
pub open spec fn is_random_uuid(id: u128) -> bool {
    (id >> 76u128) & 0xfu128 == 4 && (id >> 62u128) & 0x3u128 == 2
}

/// Some record of `s` has the identifier `id`.
pub open spec fn holds_id_spec(s: Seq<Movie>, id: u128) -> bool {
    exists|i: int| 0 <= i < s.len() && #[trigger] s[i].id == id
}

/// Whether the backing file's contents hold records to decode: the file
/// exists and is not empty. A missing or empty file starts an empty store.
pub fn has_stored_records(contents: &Option<Vec<u8>>) -> (r: bool)
    ensures
        r == (contents is Some && contents->0@.len() > 0),
{
    match contents {
        Some(bytes) => bytes.len() > 0,
        None => false,
    }
}

/// The store: the path of its backing file and the records it holds, in
/// the order they were added.
pub struct Storage {
    path: String,
    movies: Vec<Movie>,
}

impl Storage {
    /// The records held, oldest first.
    pub closed spec fn records(&self) -> Seq<Movie> {
        self.movies@
    }

    /// The path of the backing file.
    pub closed spec fn path_spec(&self) -> Seq<char> {
        self.path@
    }

    /// A store backed by `path` that holds the records `stored` read from
    /// it; the error where reading or decoding them failed.
    pub fn initialise(path: String, stored: Result<Vec<Movie>, StorageError>) -> (r: Result<
        Storage,
        StorageError,
    >)
        ensures
            match stored {
                Ok(v) => r matches Ok(s) && s.records() == v@ && s.path_spec() == path@,
                Err(e) => r == Err::<Storage, StorageError>(e),
            },
    {
        match stored {
            Ok(movies) => Ok(Storage { path, movies }),
            Err(e) => Err(e),
        }
    }

    /// The path of the backing file.
    pub fn path(&self) -> (r: &str)
        ensures
            r@ == self.path_spec(),
    {
        self.path.as_str()
    }

    /// A copy of every record held, oldest first.
    pub fn list(&self) -> (r: Vec<Movie>)
        ensures
            r@ == self.records(),
    {
        let mut out: Vec<Movie> = Vec::new();
        let mut i: usize = 0;
        while i < self.movies.len()
            invariant
                i <= self.movies@.len(),
                out@ == self.movies@.subrange(0, i as int),
            decreases self.movies@.len() - i,
        {
            out.push(self.movies[i].duplicate());
            proof {
                assert(self.movies@.subrange(0, i + 1) =~= self.movies@.subrange(0, i as int).push(
                    self.movies@[i as int],
                ));
            }
            i = i + 1;
        }
        assert(self.movies@.subrange(0, self.movies@.len() as int) =~= self.movies@);
        out
    }

    /// Whether some record held has the identifier `id`.
    pub fn holds_id(&self, id: u128) -> (r: bool)
        ensures
            r == holds_id_spec(self.records(), id),
    {
        let mut i: usize = 0;
        while i < self.movies.len()
            invariant
                i <= self.movies@.len(),
                forall|j: int| 0 <= j < i ==> #[trigger] self.movies@[j].id != id,
            decreases self.movies@.len() - i,
        {
            if self.movies[i].id == id {
                return true;
            }
            i = i + 1;
        }
        false
    }

    /// Creates the record that `request` asks for, with the identifier `id`
    /// and the creation time `created_at`, and appends it; where `id` is
    /// already held, fails and leaves the store as it was.
    pub fn add_with_id(&mut self, request: NewMovie, id: u128, created_at: Timestamp) -> (r: Result<
        Movie,
        StorageError,
    >)
        ensures
            final(self).path_spec() == old(self).path_spec(),
            r is Err <==> holds_id_spec(old(self).records(), id),
            match r {
                Ok(m) => {
                    &&& record_matches_request(m, request)
                    &&& m.id == id
                    &&& m.created_at == created_at
                    &&& final(self).records() == old(self).records().push(m)
                },
                Err(e) => e == StorageError::DuplicateId && final(self).records() == old(
                    self,
                ).records(),
            },
    {
        if self.holds_id(id) {
            return Err(StorageError::DuplicateId);
        }
        let movie = Movie::from_request(request, id, created_at);
        self.movies.push(movie.duplicate());
        Ok(movie)
    }

    /// Creates the record that `request` asks for, with a fresh random (version 4)
    /// UUID unused in the store and the current time, and appends it. Identifiers
    /// are drawn at random, up to `MAX_ID_DRAWS` times, until one is unused;
    /// the error comes only where none was, which cannot happen on an empty
    /// store, and leaves the store as it was.
    pub fn add(&mut self, request: NewMovie) -> (r: Result<Movie, StorageError>)
        ensures
            final(self).path_spec() == old(self).path_spec(),
            old(self).records().len() == 0 ==> r is Ok,
            match r {
                Ok(m) => {
                    &&& record_matches_request(m, request)
                    &&& is_random_uuid(m.id)
                    &&& m.id != 0
                    &&& m.created_at.nanos < 1_000_000_000
                    &&& !holds_id_spec(old(self).records(), m.id)
                    &&& final(self).records() == old(self).records().push(m)
                },
                Err(e) => e == StorageError::DuplicateId && final(self).records() == old(
                    self,
                ).records(),
            },
    {
        let mut id = fresh_uuid();
        let mut draws: u32 = 1;
        while self.holds_id(id) && draws < MAX_ID_DRAWS
            invariant
                1 <= draws <= MAX_ID_DRAWS,
                is_random_uuid(id),
            decreases MAX_ID_DRAWS - draws,
        {
            id = fresh_uuid();
            draws = draws + 1;
        }
        assert(((id >> 76u128) & 0xfu128 == 4) ==> id != 0) by (bit_vector);
        self.add_with_id(request, id, utc_now())
    }
}

/// `s` runs from the newest record to the oldest by creation time.
pub open spec fn newest_first(s: Seq<Movie>) -> bool {
    forall|i: int, j: int|
        0 <= i < j < s.len() ==> not_before(#[trigger] s[i].created_at, #[trigger] s[j].created_at)
}

/// The records of `s` created at `t`, in their order in `s`.
pub open spec fn created_at_time(s: Seq<Movie>, t: Timestamp) -> Seq<Movie> {
    s.filter(|m: Movie| m.created_at == t)
}

proof fn lemma_none_created_at(s: Seq<Movie>, t: Timestamp)
    requires
        forall|i: int| 0 <= i < s.len() ==> (#[trigger] s[i]).created_at != t,
    ensures
        created_at_time(s, t) == Seq::<Movie>::empty(),
{
    let p = |m: Movie| m.created_at == t;
    let f = s.filter(p);
    if f.len() > 0 {
        s.lemma_filter_pred(p, 0);
        assert(f.contains(f[0]));
        s.lemma_filter_contains_rev(p, f[0]);
    }
    assert(f =~= Seq::<Movie>::empty());
}

/// The records of `movies` ordered from the newest to the oldest by
/// creation time: the same records, each as often as before, and records
/// created at the same time in the order they had in `movies`.
pub fn sort_newest_first(movies: Vec<Movie>) -> (r: Vec<Movie>)
    ensures
        newest_first(r@),
        r@.to_multiset() == movies@.to_multiset(),
        forall|t: Timestamp| #[trigger] created_at_time(r@, t) == created_at_time(movies@, t),
{
    broadcast use vstd::seq_lib::group_to_multiset_ensures;

    let mut work = movies;
    let mut out: Vec<Movie> = Vec::new();
    assert(out@.to_multiset().add(work@.to_multiset()) =~= movies@.to_multiset());
    assert forall|t: Timestamp|
        #[trigger] created_at_time(out@, t) + created_at_time(work@, t) == created_at_time(
            movies@,
            t,
        ) by {
        assert(created_at_time(out@, t) =~= Seq::<Movie>::empty());
        assert(created_at_time(out@, t) + created_at_time(work@, t) =~= created_at_time(work@, t));
    }
    while work.len() > 0
        invariant
            out@.to_multiset().add(work@.to_multiset()) == movies@.to_multiset(),
            newest_first(out@),
            forall|i: int, j: int|
                0 <= i < out@.len() && 0 <= j < work@.len() ==> not_before(
                    #[trigger] out@[i].created_at,
                    #[trigger] work@[j].created_at,
                ),
            forall|t: Timestamp|
                #[trigger] created_at_time(out@, t) + created_at_time(work@, t) == created_at_time(
                    movies@,
                    t,
                ),
        decreases work@.len(),
    {
        let mut k: usize = 0;
        let mut i: usize = 1;
        while i < work.len()
            invariant
                0 < work@.len(),
                k < i <= work@.len(),
                forall|j: int|
                    0 <= j < i ==> not_before(work@[k as int].created_at, #[trigger] work@[j].created_at),
                forall|j: int|
                    0 <= j < k ==> !not_before(
                        #[trigger] work@[j].created_at,
                        work@[k as int].created_at,
                    ),
            decreases work@.len() - i,
        {
            if !work[k].created_at.is_not_before(&work[i].created_at) {
                k = i;
            }
            i = i + 1;
        }
        let ghost before = work@;
        assert(forall|j: int| 0 <= j < k ==> (#[trigger] before[j]).created_at != before[k as int].created_at);
        let ghost out_before = out@;
        let m = work.remove(k);
        proof {
            before.to_multiset_ensures();
            out_before.to_multiset_ensures();
        }
        assert(work@.to_multiset() == before.to_multiset().remove(m));
        out.push(m);
        assert(out@ == out_before.push(m));
        assert(out@.to_multiset() == out_before.to_multiset().insert(m));
        assert(out@.to_multiset().add(work@.to_multiset()) =~= movies@.to_multiset());
        assert forall|t: Timestamp|
            #[trigger] created_at_time(out@, t) + created_at_time(work@, t) == created_at_time(
                movies@,
                t,
            ) by {
            let pre = before.subrange(0, k as int);
            let post = before.subrange(k + 1, before.len() as int);
            assert(before =~= pre + seq![m] + post);
            assert(work@ =~= pre + post);
            assert(out@ =~= out_before + seq![m]);
            Seq::filter_distributes_over_add(out_before, seq![m], |x: Movie| x.created_at == t);
            Seq::filter_distributes_over_add(pre + seq![m], post, |x: Movie| x.created_at == t);
            Seq::filter_distributes_over_add(pre, seq![m], |x: Movie| x.created_at == t);
            Seq::filter_distributes_over_add(pre, post, |x: Movie| x.created_at == t);
            reveal_with_fuel(Seq::filter, 2);
            if m.created_at == t {
                assert forall|i: int| 0 <= i < pre.len() implies (#[trigger] pre[i]).created_at != t by {
                    assert(pre[i] == before[i]);
                }
                lemma_none_created_at(pre, t);
                assert(seq![m].filter(|x: Movie| x.created_at == t) =~= seq![m]);
            } else {
                assert(seq![m].filter(|x: Movie| x.created_at == t) =~= Seq::<Movie>::empty());
            }
            assert(created_at_time(out@, t) + created_at_time(work@, t) =~= created_at_time(out_before, t) + created_at_time(before, t));
        }
        assert forall|a: int, b: int|
            0 <= a < out@.len() && 0 <= b < work@.len() implies not_before(
            #[trigger] out@[a].created_at,
            #[trigger] work@[b].created_at,
        ) by {
            if b < k {
                assert(work@[b] == before[b]);
            } else {
                assert(work@[b] == before[b + 1]);
            }
        }
    }
    out
}

/// Successive successful adds to a store that started empty: `states[k]`
/// is what the store held before the k-th add, which appended `added[k]`
/// for `requests[k]` with an identifier the store did not hold yet.
pub open spec fn successive_adds(
    states: Seq<Seq<Movie>>,
    added: Seq<Movie>,
    requests: Seq<NewMovie>,
) -> bool {
    &&& states.len() == requests.len() + 1
    &&& added.len() == requests.len()
    &&& states[0].len() == 0
    &&& forall|k: int|
        0 <= k < requests.len() ==> {
            &&& #[trigger] states[k + 1] == states[k].push(added[k])
            &&& record_matches_request(added[k], requests[k])
            &&& !holds_id_spec(states[k], added[k].id)
        }
}

/// After `n` successful adds to an empty store, listing it gives exactly `n`
/// records: the k-th carries the fields of the k-th request, and no two
/// share an identifier.
pub proof fn lemma_list_after_adds(
    states: Seq<Seq<Movie>>,
    added: Seq<Movie>,
    requests: Seq<NewMovie>,
)
    requires
        successive_adds(states, added, requests),
    ensures
        states.last().len() == requests.len(),
        forall|i: int|
            0 <= i < requests.len() ==> record_matches_request(
                #[trigger] states.last()[i],
                requests[i],
            ),
        forall|i: int, j: int|
            0 <= i < j < requests.len() ==> (#[trigger] states.last()[i]).id
                != (#[trigger] states.last()[j]).id,
{
    lemma_adds_prefix(states, added, requests, requests.len() as int);
    assert(states.last() =~= added);
    assert forall|i: int| 0 <= i < requests.len() implies record_matches_request(
        #[trigger] states.last()[i],
        requests[i],
    ) by {
        assert(states[i + 1] == states[i].push(added[i]));
    }
}

proof fn lemma_adds_prefix(
    states: Seq<Seq<Movie>>,
    added: Seq<Movie>,
    requests: Seq<NewMovie>,
    k: int,
)
    requires
        successive_adds(states, added, requests),
        0 <= k <= requests.len(),
    ensures
        states[k] == added.subrange(0, k),
        forall|i: int, j: int|
            0 <= i < j < k ==> (#[trigger] added[i]).id != (#[trigger] added[j]).id,
    decreases k,
{
    if k == 0 {
        assert(states[0] =~= added.subrange(0, 0));
    } else {
        lemma_adds_prefix(states, added, requests, k - 1);
        assert(states[k] == states[k - 1].push(added[k - 1]));
        assert(states[k] =~= added.subrange(0, k));
        assert forall|i: int, j: int| 0 <= i < j < k implies (#[trigger] added[i]).id
            != (#[trigger] added[j]).id by {
            if j == k - 1 {
                assert(states[k - 1][i] == added[i]);
            }
        }
    }
}

} // verus!
