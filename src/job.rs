//! Benchmark jobs and their discovery from a listing of the corpus root.
use vstd::prelude::*;
use vstd::string::*;

verus! {

/// The path of one artifact of the image `name` under the corpus `root`:
/// `<root>/<name>/<name><suffix>`.
pub open spec fn artifact_path(root: Seq<char>, name: Seq<char>, suffix: Seq<char>) -> Seq<char> {
    root + seq!['/'] + name + seq!['/'] + name + suffix
}

/// Builds `<root>/<name>/<name><suffix>`.
pub fn artifact_path_of(root: &str, name: &str, suffix: &str) -> (r: String)
    ensures
        r@ == artifact_path(root@, name@, suffix@),
{
    let mut p = String::from_str(root);
    p.append("/");
    p.append(name);
    p.append("/");
    p.append(name);
    p.append(suffix);
    proof {
        reveal_strlit("/");
        assert(p@ =~= artifact_path(root@, name@, suffix@));
    }
    p
}

/// Location of the source bitmap of the image `name`.
pub fn source_path(root: &str, name: &str) -> (r: String)
    ensures
        r@ == artifact_path(root@, name@, ".bmp"@),
{
    artifact_path_of(root, name, ".bmp")
}

/// Identifies one benchmark unit: an image and the files its run touches,
/// all inside the image's own subdirectory.
pub struct CompressionJob {
    pub image_name: String,
    pub source_path: String,
    pub compressed_path: String,
    pub decompressed_path: String,
    pub compress_log_path: String,
    pub decompress_log_path: String,
    pub stats_path: String,
}

/// The paths of a job, as plain values.
pub struct JobView {
    pub image_name: Seq<char>,
    pub source_path: Seq<char>,
    pub compressed_path: Seq<char>,
    pub decompressed_path: Seq<char>,
    pub compress_log_path: Seq<char>,
    pub decompress_log_path: Seq<char>,
    pub stats_path: Seq<char>,
}

impl View for CompressionJob {
    type V = JobView;

    open spec fn view(&self) -> JobView {
        JobView {
            image_name: self.image_name@,
            source_path: self.source_path@,
            compressed_path: self.compressed_path@,
            decompressed_path: self.decompressed_path@,
            compress_log_path: self.compress_log_path@,
            decompress_log_path: self.decompress_log_path@,
            stats_path: self.stats_path@,
        }
    }
}

/// The job for the image `name` under the corpus `root`.
pub open spec fn job_spec(root: Seq<char>, name: Seq<char>) -> JobView {
    JobView {
        image_name: name,
        source_path: artifact_path(root, name, ".bmp"@),
        compressed_path: artifact_path(root, name, ".bjpg"@),
        decompressed_path: artifact_path(root, name, "_decompressed.bmp"@),
        compress_log_path: artifact_path(root, name, "_compressing.log"@),
        decompress_log_path: artifact_path(root, name, "_decompressing.log"@),
        stats_path: artifact_path(root, name, "_stats.json"@),
    }
}

impl CompressionJob {
    /// The job for the image `name` under the corpus `root`.
    pub fn new(root: &str, name: &str) -> (r: CompressionJob)
        ensures
            r@ == job_spec(root@, name@),
    {
        CompressionJob {
            image_name: String::from_str(name),
            source_path: source_path(root, name),
            compressed_path: artifact_path_of(root, name, ".bjpg"),
            decompressed_path: artifact_path_of(root, name, "_decompressed.bmp"),
            compress_log_path: artifact_path_of(root, name, "_compressing.log"),
            decompress_log_path: artifact_path_of(root, name, "_decompressing.log"),
            stats_path: artifact_path_of(root, name, "_stats.json"),
        }
    }
}

/// One entry of the corpus root's listing, with what was found of it.
pub struct CorpusEntry {
    pub name: String,
    pub is_dir: bool,
    /// Whether the entry holds a readable `<name>.bmp`.
    pub has_source: bool,
}

/// An entry that becomes a job.
pub open spec fn is_candidate(e: CorpusEntry) -> bool {
    e.is_dir && e.has_source
}

/// The entries that become jobs, in listing order.
pub open spec fn candidates(entries: Seq<CorpusEntry>) -> Seq<CorpusEntry> {
    entries.filter(|e: CorpusEntry| is_candidate(e))
}

/// One job for every entry that is a directory holding its source bitmap,
/// in listing order.
pub fn discover_jobs(root: &str, entries: &Vec<CorpusEntry>) -> (r: Vec<CompressionJob>)
    ensures
        r@.len() == candidates(entries@).len(),
        forall|i: int|
            0 <= i < r@.len() ==> #[trigger] r@[i]@ == job_spec(root@, candidates(entries@)[i].name@),
{
    let mut jobs: Vec<CompressionJob> = Vec::new();
    let mut i: usize = 0;
    while i < entries.len()
        invariant
            i <= entries@.len(),
            jobs@.len() == candidates(entries@.subrange(0, i as int)).len(),
            forall|k: int|
                0 <= k < jobs@.len() ==> #[trigger] jobs@[k]@ == job_spec(
                    root@,
                    candidates(entries@.subrange(0, i as int))[k].name@,
                ),
        decreases entries@.len() - i,
    {
        let e = &entries[i];
        proof {
            let prev = entries@.subrange(0, i as int);
            let next = entries@.subrange(0, i as int + 1);
            assert(next.drop_last() =~= prev);
            assert(next.last() == entries@[i as int]);
            reveal(Seq::filter);
        }
        if e.is_dir && e.has_source {
            jobs.push(CompressionJob::new(root, e.name.as_str()));
        }
        i = i + 1;
    }
    proof {
        assert(entries@.subrange(0, i as int) =~= entries@);
    }
    jobs
}

} // verus!
