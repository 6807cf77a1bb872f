use vstd::prelude::*;
use crate::codec::{all_slug_chars, generate_slug, is_clean, is_valid_custom};

verus! {

/// sled's embedded database handle, opaque to this crate's proofs.
#[verifier::external_type_specification]
#[verifier::external_body]
pub struct ExDb(sled::Db);

/// The slug-to-target mapping that a store's sled tree holds, with keys
/// and values read as text.
pub uninterp spec fn stored_links(d: Database) -> Map<Seq<char>, Seq<char>>;

/// A store that holds no records at all.
pub open spec fn no_links(m: Map<Seq<char>, Seq<char>>) -> bool {
    m == Map::<Seq<char>, Seq<char>>::empty()
}

/// What parsing accepts as a target URI.
pub uninterp spec fn uri_ok(s: Seq<char>) -> bool;

/// Relies on http::Uri's string parsing: whether `target` is accepted
/// depends on its characters alone.
#[verifier::external_body]
fn target_parses(target: &str) -> (r: bool)
    ensures
        r == uri_ok(target@),
{
    target.parse::<http::Uri>().is_ok()
}

/// How many generated candidates a single allocation tries before giving up
/// and reporting the keyspace as exhausted.
pub const SLUG_ATTEMPTS: usize = 64;

/// Why a request to store a link was rejected.
#[derive(Clone, Copy, Debug, PartialEq, Eq, Structural)]
pub enum PutError {
    /// The target could not be parsed as a URI; nothing was stored.
    InvalidTargetUri,
    /// Every generated candidate named an existing record; nothing was
    /// stored. Seen only when the keyspace for the chosen length is close
    /// to full.
    SlugSpaceExhausted,
}

/// Every slug the generator could draw at length `len` is still free: no
/// stored key has that length and uses only the generated-slug alphabet.
pub open spec fn generation_space_free(m: Map<Seq<char>, Seq<char>>, len: int) -> bool {
    forall|s: Seq<char>|
        s.len() == len && all_slug_chars(s) ==> !(#[trigger] m.dom().contains(s))
}

/// A supplied slug is used as given exactly when it is present, non-empty
/// and made of whitelist characters; otherwise a slug is generated.
pub open spec fn accepts_custom(custom: Option<String>) -> bool {
    custom matches Some(s) && s@.len() > 0 && is_valid_custom(s@)
}

/// A durable slug-to-target store backed by a sled database. The sole
/// owner of the underlying tree: every read and write goes through it.
pub struct Database {
    db: sled::Db,
}

impl View for Database {
    type V = Map<Seq<char>, Seq<char>>;

    closed spec fn view(&self) -> Map<Seq<char>, Seq<char>> {
        stored_links(*self)
    }
}

impl Database {
    /// Relies on sled::open: opens the tree stored at `path`, creating it
    /// if the path holds none, and recovering whatever records it already
    /// holds. Failure to open is fatal: the process cannot serve without
    /// its store.
    #[verifier::external_body]
    fn open_at(path: &str) -> Database {
        Database { db: sled::open(path).expect("failed to open database") }
    }

    /// Relies on sled::Config with temporary storage: opens a fresh, empty
    /// tree at a generated path, removed again when the handle drops.
    #[verifier::external_body]
    fn open_fresh() -> (fresh: Database)
        ensures
            no_links(stored_links(fresh)),
    {
        Database {
            db: sled::Config::new().temporary(true).open().expect("failed to open database"),
        }
    }

    /// Relies on sled::Tree::get: returns the value stored under `slug`, if
    /// any. A stored value that is not text signals corruption, which is
    /// fatal here: it means a broken write invariant, not a bad request.
    #[verifier::external_body]
    fn read_raw(&self, slug: &str) -> (r: Option<String>)
        ensures
            r is Some <==> stored_links(*self).dom().contains(slug@),
            r is Some ==> r->0@ == stored_links(*self)[slug@],
    {
        match self.db.get(slug).expect("failed to read database") {
            Some(bytes) => Some(
                String::from_utf8(bytes.to_vec()).expect("failed to deserialize value"),
            ),
            None => None,
        }
    }

    /// Relies on sled::Tree::insert: afterwards the tree maps `slug` to
    /// `target` and every other key is unchanged. A write failure is fatal:
    /// silent partial persistence would be worse than a hard stop.
    #[verifier::external_body]
    fn write_raw(&mut self, slug: &str, target: &str)
        ensures
            stored_links(*final(self)) == stored_links(*old(self)).insert(slug@, target@),
    {
        self.db.insert(slug, target.as_bytes()).expect("failed to write entry");
    }

    /// Open the store persisted at `path`. Its records are whatever the
    /// path already holds.
    pub fn new(path: &str) -> Database {
        Database::open_at(path)
    }

    /// Open a store that starts empty and leaves nothing behind, for
    /// callers that need isolation rather than durability.
    pub fn open_temporary() -> (d: Database)
        ensures
            no_links(d@),
    {
        Database::open_fresh()
    }

    /// Look up a slug: the stored target if a record exists, nothing
    /// otherwise.
    pub fn get(&self, slug: &str) -> (r: Option<String>)
        ensures
            r is Some <==> self@.dom().contains(slug@),
            r is Some ==> r->0@ == self@[slug@],
    {
        self.read_raw(slug)
    }

    /// Draw generated slugs until one names no existing record, giving up
    /// after a fixed number of attempts.
    fn allocate(&self, len: usize) -> (r: Option<String>)
        ensures
            generation_space_free(self@, len as int) ==> r is Some,
            r is Some ==> ({
                let s = r->0@;
                &&& s.len() == len
                &&& all_slug_chars(s)
                &&& !self@.dom().contains(s)
            }),
    {
        let mut attempts: usize = 0;
        while attempts < SLUG_ATTEMPTS
            invariant
                attempts <= SLUG_ATTEMPTS,
                attempts > 0 ==> !generation_space_free(self@, len as int),
            decreases SLUG_ATTEMPTS - attempts,
        {
            let candidate: String = generate_slug(len);
            if self.get(candidate.as_str()).is_none() {
                return Some(candidate);
            }
            proof {
                // This draw found its candidate occupied, so the store does
                // hold a key of generated shape.
                assert(self@.dom().contains(candidate@));
                assert(!generation_space_free(self@, len as int));
            }
            attempts += 1;
        }
        None
    }

    /// Store a link and return the slug it was stored under.
    ///
    /// A supplied slug that is non-empty and whitelist-clean is used as
    /// given, overwriting any record already stored under it. Otherwise a
    /// fresh slug of `len` characters is generated from the unambiguous
    /// alphabet, avoiding every occupied slug. A target that does not parse
    /// as a URI is rejected, and the store is then unchanged.
    pub fn put(&mut self, custom: Option<String>, target: &str, len: usize) -> (r: Result<
        String,
        PutError,
    >)
        requires
            len >= 1,
        ensures
            (r matches Err(e) && e is InvalidTargetUri) <==> !uri_ok(target@),
            r is Err ==> final(self)@ == old(self)@,
            uri_ok(target@) && accepts_custom(custom) ==> r is Ok,
            uri_ok(target@) && generation_space_free(old(self)@, len as int) ==> r is Ok,
            r is Ok ==> ({
                let s = r->Ok_0@;
                &&& uri_ok(target@)
                &&& final(self)@ == old(self)@.insert(s, target@)
                &&& s.len() > 0
                &&& is_valid_custom(s)
                &&& (accepts_custom(custom) ==> s == custom->0@)
                &&& (!accepts_custom(custom) ==> {
                    &&& s.len() == len
                    &&& all_slug_chars(s)
                    &&& !old(self)@.dom().contains(s)
                })
            }),
    {
        if !target_parses(target) {
            return Err(PutError::InvalidTargetUri);
        }
        let chosen: Option<String> = match custom {
            Some(s) => {
                if s.as_str().unicode_len() > 0 && is_clean(s.as_str()) {
                    Some(s)
                } else {
                    self.allocate(len)
                }
            },
            None => self.allocate(len),
        };
        match chosen {
            Some(slug) => {
                self.write_raw(slug.as_str(), target);
                Ok(slug)
            },
            None => Err(PutError::SlugSpaceExhausted),
        }
    }
}

/// Storing a record under a slug and then looking that slug up yields
/// exactly the stored target, whatever the store held before.
pub proof fn lemma_put_then_get(
    links: Map<Seq<char>, Seq<char>>,
    slug: Seq<char>,
    target: Seq<char>,
)
    ensures
        links.insert(slug, target).dom().contains(slug),
        links.insert(slug, target)[slug] == target,
{
}

/// Generated allocations never repeat a slug: a draw avoids every occupied
/// key, so once the first slug is stored the second draw cannot equal it.
pub proof fn lemma_generated_slugs_distinct(
    links: Map<Seq<char>, Seq<char>>,
    first: Seq<char>,
    first_target: Seq<char>,
    second: Seq<char>,
)
    requires
        !links.dom().contains(first),
        !links.insert(first, first_target).dom().contains(second),
    ensures
        first != second,
{
}

/// Storing twice under one custom slug keeps the later target: the second
/// record overwrites the first without an error.
pub proof fn lemma_custom_overwrite(
    links: Map<Seq<char>, Seq<char>>,
    slug: Seq<char>,
    first_target: Seq<char>,
    second_target: Seq<char>,
)
    ensures
        links.insert(slug, first_target).insert(slug, second_target)[slug] == second_target,
{
}

} // verus!
