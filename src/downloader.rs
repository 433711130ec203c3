//! The download engine's decisions: what a batch fetches, and how each fetched
//! item is judged.
//!
//! A batch fetches exactly the items whose destination is absent; a present
//! file is trusted as it is. The surrounding program runs the fetches, at most
//! eight at a time, and reports each item's outcome back.

use vstd::prelude::*;
use vstd::string::*;

use crate::error::DownloadError;
use crate::manifest::{AssetObjectEntry, DownloadableClassifier, JavaRuntimeFile, Library};
use crate::text::{join_path, joined};

verus! {

/// How many fetches of a batch may be in flight at once.
pub const BUFFER_SIZE: usize = 8;

/// An artifact with a name, a source, an expected hash and a destination.
pub trait Downloadable {
    spec fn spec_name(&self) -> Seq<char>;

    spec fn spec_url(&self) -> Seq<char>;

    spec fn spec_hash(&self) -> Seq<char>;

    /// The destination of the artifact under `base_dir`.
    spec fn spec_path(&self, base_dir: Seq<char>) -> Seq<char>;

    fn name(&self) -> (r: &str)
        ensures
            r@ == self.spec_name(),
    ;

    fn url(&self) -> (r: String)
        ensures
            r@ == self.spec_url(),
    ;

    fn hash(&self) -> (r: &str)
        ensures
            r@ == self.spec_hash(),
    ;

    fn path(&self, base_dir: &str) -> (r: String)
        ensures
            r@ == self.spec_path(base_dir@),
    ;
}

/// The first two characters of an asset hash (all of it, if shorter).
pub open spec fn hash_prefix(hash: Seq<char>) -> Seq<char> {
    if hash.len() < 2 {
        hash
    } else {
        hash.subrange(0, 2)
    }
}

/// Where an asset object is stored under the objects directory:
/// `<hash[0:2]>/<hash>`.
pub open spec fn asset_object_path(base_dir: Seq<char>, hash: Seq<char>) -> Seq<char> {
    joined(joined(base_dir, hash_prefix(hash)), hash)
}

impl Downloadable for Library {
    open spec fn spec_name(&self) -> Seq<char> {
        self.name@
    }

    open spec fn spec_url(&self) -> Seq<char> {
        self.artifact.download.url@
    }

    open spec fn spec_hash(&self) -> Seq<char> {
        self.artifact.download.sha1@
    }

    open spec fn spec_path(&self, base_dir: Seq<char>) -> Seq<char> {
        joined(base_dir, self.artifact.path@)
    }

    fn name(&self) -> (r: &str) {
        self.name.as_str()
    }

    fn url(&self) -> (r: String) {
        self.artifact.download.url.clone()
    }

    fn hash(&self) -> (r: &str) {
        self.artifact.download.sha1.as_str()
    }

    fn path(&self, base_dir: &str) -> (r: String) {
        join_path(base_dir, self.artifact.path.as_str())
    }
}

impl Downloadable for DownloadableClassifier {
    open spec fn spec_name(&self) -> Seq<char> {
        self.name@
    }

    open spec fn spec_url(&self) -> Seq<char> {
        self.artifact.download.url@
    }

    open spec fn spec_hash(&self) -> Seq<char> {
        self.artifact.download.sha1@
    }

    open spec fn spec_path(&self, base_dir: Seq<char>) -> Seq<char> {
        joined(base_dir, self.artifact.path@)
    }

    fn name(&self) -> (r: &str) {
        self.name.as_str()
    }

    fn url(&self) -> (r: String) {
        self.artifact.download.url.clone()
    }

    fn hash(&self) -> (r: &str) {
        self.artifact.download.sha1.as_str()
    }

    fn path(&self, base_dir: &str) -> (r: String) {
        join_path(base_dir, self.artifact.path.as_str())
    }
}

impl Downloadable for JavaRuntimeFile {
    open spec fn spec_name(&self) -> Seq<char> {
        self.path@
    }

    open spec fn spec_url(&self) -> Seq<char> {
        self.download.url@
    }

    open spec fn spec_hash(&self) -> Seq<char> {
        self.download.sha1@
    }

    open spec fn spec_path(&self, base_dir: Seq<char>) -> Seq<char> {
        joined(base_dir, self.path@)
    }

    fn name(&self) -> (r: &str) {
        self.path.as_str()
    }

    fn url(&self) -> (r: String) {
        self.download.url.clone()
    }

    fn hash(&self) -> (r: &str) {
        self.download.sha1.as_str()
    }

    fn path(&self, base_dir: &str) -> (r: String) {
        join_path(base_dir, self.path.as_str())
    }
}

/// Where asset objects are fetched from.
pub const ASSET_RESOURCES_URL: &'static str = "https://resources.download.minecraft.net/";

impl Downloadable for AssetObjectEntry {
    open spec fn spec_name(&self) -> Seq<char> {
        self.name@
    }

    /// `<resources>/<hash[0:2]>/<hash>`.
    open spec fn spec_url(&self) -> Seq<char> {
        ASSET_RESOURCES_URL@ + hash_prefix(self.hash@) + "/"@ + self.hash@
    }

    open spec fn spec_hash(&self) -> Seq<char> {
        self.hash@
    }

    open spec fn spec_path(&self, base_dir: Seq<char>) -> Seq<char> {
        asset_object_path(base_dir, self.hash@)
    }

    fn name(&self) -> (r: &str) {
        self.name.as_str()
    }

    fn url(&self) -> (r: String) {
        let prefix = hash_prefix_of(self.hash.as_str());
        let mut r = ASSET_RESOURCES_URL.to_owned();
        r.append(prefix);
        r.append("/");
        r.append(self.hash.as_str());
        r
    }

    fn hash(&self) -> (r: &str) {
        self.hash.as_str()
    }

    fn path(&self, base_dir: &str) -> (r: String) {
        let prefix = hash_prefix_of(self.hash.as_str());
        let dir = join_path(base_dir, prefix);
        join_path(dir.as_str(), self.hash.as_str())
    }
}

/// The first two characters of `hash` (all of it, if shorter).
pub fn hash_prefix_of(hash: &str) -> (r: &str)
    ensures
        r@ == hash_prefix(hash@),
{
    let n = hash.unicode_len();
    if n < 2 {
        hash
    } else {
        hash.substring_char(0, 2)
    }
}

/// The indices of the items that a batch fetches: those whose destination is
/// not present, in order.
pub open spec fn fetch_plan(present: Seq<bool>) -> Seq<int>
    decreases present.len(),
{
    if present.len() == 0 {
        Seq::empty()
    } else {
        let rest = fetch_plan(present.drop_last());
        if present.last() {
            rest
        } else {
            rest.push(present.len() - 1)
        }
    }
}

/// A fetch that a batch performs: which item, from where, to where, and the
/// hash its bytes must have.
pub struct FetchRequest {
    pub index: usize,
    pub name: String,
    pub url: String,
    pub path: String,
    pub hash: String,
}

/// The fetches of a batch over `items` under `base_dir`, where `present[i]`
/// tells whether item `i`'s destination already exists.
pub fn plan_downloads<T: Downloadable>(items: &[T], base_dir: &str, present: &[bool]) -> (r: Vec<
    FetchRequest,
>)
    requires
        present@.len() == items@.len(),
    ensures
        r@.len() == fetch_plan(present@).len(),
        forall|k: int|
            0 <= k < r@.len() ==> {
                let i = fetch_plan(present@)[k];
                &&& (#[trigger] r@[k]).index == i
                &&& r@[k].name@ == items@[i].spec_name()
                &&& r@[k].url@ == items@[i].spec_url()
                &&& r@[k].path@ == items@[i].spec_path(base_dir@)
                &&& r@[k].hash@ == items@[i].spec_hash()
            },
{
    let mut r: Vec<FetchRequest> = Vec::new();
    let mut i: usize = 0;
    while i < items.len()
        invariant
            i <= items@.len(),
            present@.len() == items@.len(),
            r@.len() == fetch_plan(present@.subrange(0, i as int)).len(),
            forall|k: int|
                0 <= k < r@.len() ==> {
                    let j = fetch_plan(present@.subrange(0, i as int))[k];
                    &&& (#[trigger] r@[k]).index == j
                    &&& r@[k].name@ == items@[j].spec_name()
                    &&& r@[k].url@ == items@[j].spec_url()
                    &&& r@[k].path@ == items@[j].spec_path(base_dir@)
                    &&& r@[k].hash@ == items@[j].spec_hash()
                },
        decreases items@.len() - i,
    {
        assert(present@.subrange(0, i + 1).drop_last() =~= present@.subrange(0, i as int));
        if !present[i] {
            let item = &items[i];
            r.push(
                FetchRequest {
                    index: i,
                    name: item.name().to_owned(),
                    url: item.url(),
                    path: item.path(base_dir),
                    hash: item.hash().to_owned(),
                },
            );
        }
        i = i + 1;
    }
    assert(present@.subrange(0, i as int) =~= present@);
    r
}

/// Every index in the plan names an item that is not present, and every item
/// that is not present is in the plan, once, in order.
pub proof fn lemma_fetch_plan(present: Seq<bool>)
    ensures
        forall|k: int|
            0 <= k < fetch_plan(present).len() ==> 0 <= #[trigger] fetch_plan(present)[k]
                < present.len() && !present[fetch_plan(present)[k]],
        forall|k1: int, k2: int|
            0 <= k1 < k2 < fetch_plan(present).len() ==> fetch_plan(present)[k1] < fetch_plan(
                present,
            )[k2],
        forall|i: int| 0 <= i < present.len() && !present[i] ==> fetch_plan(present).contains(i),
    decreases present.len(),
{
    if present.len() > 0 {
        let rest = present.drop_last();
        lemma_fetch_plan(rest);
        assert forall|i: int| 0 <= i < present.len() && !present[i] implies fetch_plan(
            present,
        ).contains(i) by {
            if i < present.len() - 1 {
                assert(rest[i] == present[i]);
                let k = choose|k: int| 0 <= k < fetch_plan(rest).len() && fetch_plan(rest)[k] == i;
                assert(fetch_plan(present)[k] == i);
            } else {
                assert(fetch_plan(present).last() == i);
            }
        }
    }
}

/// A destination that exists before a batch runs is never fetched.
pub proof fn lemma_present_item_not_fetched(present: Seq<bool>, i: int)
    requires
        0 <= i < present.len(),
        present[i],
    ensures
        !fetch_plan(present).contains(i),
{
    lemma_fetch_plan(present);
}

/// Which destinations exist, given the set of paths on disk.
pub open spec fn presence(paths: Seq<Seq<char>>, disk: Set<Seq<char>>) -> Seq<bool> {
    Seq::new(paths.len(), |i: int| disk.contains(paths[i]))
}

/// The paths a batch writes when every planned fetch succeeds.
pub open spec fn written_paths(paths: Seq<Seq<char>>, plan: Seq<int>) -> Set<Seq<char>> {
    Set::new(|p: Seq<char>| exists|k: int| 0 <= k < plan.len() && p == paths[plan[k]])
}

/// After a batch in which every planned fetch succeeded, running the same
/// batch again fetches nothing.
pub proof fn lemma_rerun_fetches_nothing(paths: Seq<Seq<char>>, disk: Set<Seq<char>>)
    ensures
        fetch_plan(
            presence(paths, disk.union(written_paths(paths, fetch_plan(presence(paths, disk))))),
        ).len() == 0,
{
    let before = presence(paths, disk);
    let plan = fetch_plan(before);
    let after_disk = disk.union(written_paths(paths, plan));
    let after = presence(paths, after_disk);
    lemma_fetch_plan(before);
    lemma_fetch_plan(after);
    assert forall|i: int| 0 <= i < paths.len() implies after[i] by {
        if !before[i] {
            let k = choose|k: int| 0 <= k < plan.len() && plan[k] == i;
            assert(written_paths(paths, plan).contains(paths[i]));
        }
    }
    if fetch_plan(after).len() > 0 {
        let i = fetch_plan(after)[0];
        assert(after[i]);
    }
}

/// How one planned fetch of a batch ended.
pub enum ItemOutcome {
    /// The bytes matched their hash and were written.
    Written,
    /// The fetch or the write failed, or the bytes did not match.
    Failed(DownloadError),
}

/// What a settled batch reports, by item index.
pub struct BatchReport {
    pub written: Vec<usize>,
    /// Items whose bytes did not match their expected hash.
    pub hash_mismatches: Vec<usize>,
    /// Items whose fetch failed in transport.
    pub request_failures: Vec<usize>,
    /// Items whose bytes could not be written.
    pub write_failures: Vec<usize>,
}

/// The indices of the outcomes that satisfy `pred`, in order.
pub open spec fn indices_where(
    outcomes: Seq<(usize, ItemOutcome)>,
    pred: spec_fn(ItemOutcome) -> bool,
) -> Seq<usize>
    decreases outcomes.len(),
{
    if outcomes.len() == 0 {
        Seq::empty()
    } else {
        let rest = indices_where(outcomes.drop_last(), pred);
        if pred(outcomes.last().1) {
            rest.push(outcomes.last().0)
        } else {
            rest
        }
    }
}

pub open spec fn is_written(o: ItemOutcome) -> bool {
    o is Written
}

pub open spec fn is_hash_mismatch(o: ItemOutcome) -> bool {
    o matches ItemOutcome::Failed(DownloadError::InvalidFileHashError(_))
}

pub open spec fn is_request_failure(o: ItemOutcome) -> bool {
    o matches ItemOutcome::Failed(DownloadError::RequestError(_))
}

pub open spec fn is_write_failure(o: ItemOutcome) -> bool {
    o matches ItemOutcome::Failed(DownloadError::FileWriteError(_))
}

/// Sorts the settled outcomes of a batch, in the order they settled. A failed
/// item does not fail the batch; a hash mismatch is kept apart from transport
/// and write failures.
pub fn summarize_batch(outcomes: &[(usize, ItemOutcome)]) -> (r: BatchReport)
    ensures
        r.written@ == indices_where(outcomes@, |o: ItemOutcome| is_written(o)),
        r.hash_mismatches@ == indices_where(outcomes@, |o: ItemOutcome| is_hash_mismatch(o)),
        r.request_failures@ == indices_where(outcomes@, |o: ItemOutcome| is_request_failure(o)),
        r.write_failures@ == indices_where(outcomes@, |o: ItemOutcome| is_write_failure(o)),
{
    let mut r = BatchReport {
        written: Vec::new(),
        hash_mismatches: Vec::new(),
        request_failures: Vec::new(),
        write_failures: Vec::new(),
    };
    let mut i: usize = 0;
    while i < outcomes.len()
        invariant
            i <= outcomes@.len(),
            r.written@ == indices_where(
                outcomes@.subrange(0, i as int),
                |o: ItemOutcome| is_written(o),
            ),
            r.hash_mismatches@ == indices_where(
                outcomes@.subrange(0, i as int),
                |o: ItemOutcome| is_hash_mismatch(o),
            ),
            r.request_failures@ == indices_where(
                outcomes@.subrange(0, i as int),
                |o: ItemOutcome| is_request_failure(o),
            ),
            r.write_failures@ == indices_where(
                outcomes@.subrange(0, i as int),
                |o: ItemOutcome| is_write_failure(o),
            ),
        decreases outcomes@.len() - i,
    {
        assert(outcomes@.subrange(0, i + 1).drop_last() =~= outcomes@.subrange(0, i as int));
        let (index, outcome) = &outcomes[i];
        match outcome {
            ItemOutcome::Written => r.written.push(*index),
            ItemOutcome::Failed(DownloadError::InvalidFileHashError(_)) => r.hash_mismatches.push(
                *index,
            ),
            ItemOutcome::Failed(DownloadError::RequestError(_)) => r.request_failures.push(*index),
            ItemOutcome::Failed(DownloadError::FileWriteError(_)) => r.write_failures.push(*index),
        }
        i = i + 1;
    }
    assert(outcomes@.subrange(0, i as int) =~= outcomes@);
    r
}

} // verus!
