use testbench::job::{artifact_path_of, discover_jobs, source_path, CompressionJob, CorpusEntry};
use testbench::schedule::worker_count;

fn entry(name: &str, is_dir: bool, has_source: bool) -> CorpusEntry {
    CorpusEntry { name: name.to_string(), is_dir, has_source }
}

#[test]
fn job_paths_lie_in_the_image_directory() {
    let job = CompressionJob::new("/corpus", "cat");
    assert_eq!(job.image_name, "cat");
    assert_eq!(job.source_path, "/corpus/cat/cat.bmp");
    assert_eq!(job.compressed_path, "/corpus/cat/cat.bjpg");
    assert_eq!(job.decompressed_path, "/corpus/cat/cat_decompressed.bmp");
    assert_eq!(job.compress_log_path, "/corpus/cat/cat_compressing.log");
    assert_eq!(job.decompress_log_path, "/corpus/cat/cat_decompressing.log");
    assert_eq!(job.stats_path, "/corpus/cat/cat_stats.json");
    assert_eq!(source_path("/corpus", "cat"), "/corpus/cat/cat.bmp");
    assert_eq!(artifact_path_of("r", "x", ".y"), "r/x/x.y");
}

#[test]
fn discovery_keeps_directories_with_a_source() {
    let entries = vec![
        entry("dog", true, true),
        entry("bird", true, false),
        entry("notes.txt", false, false),
        entry("odd", false, true),
        entry("cat", true, true),
    ];
    let jobs = discover_jobs("root", &entries);
    let names: Vec<&str> = jobs.iter().map(|j| j.image_name.as_str()).collect();
    assert_eq!(names, vec!["dog", "cat"]);
    assert_eq!(jobs[1].source_path, "root/cat/cat.bmp");
}

#[test]
fn discovery_of_an_empty_corpus() {
    assert!(discover_jobs("root", &Vec::new()).is_empty());
}

#[test]
fn worker_pool_size() {
    assert_eq!(worker_count(Some(4), 16), 4);
    assert_eq!(worker_count(None, 16), 16);
    assert_eq!(worker_count(None, 0), 1);
    assert_eq!(worker_count(Some(0), 8), 1);
}
