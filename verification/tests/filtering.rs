use loudness_scan::errors::ScanError;
use loudness_scan::filter::EntryFilter;
use loudness_scan::walk::FsEntry;
use loudness_scan::walk::plan_walk;

fn strings(items: &[&str]) -> Vec<String> {
    items.iter().map(|s| s.to_string()).collect()
}

fn build_filter(includes: &[&str], excludes: &[&str], case_sensitive: bool) -> EntryFilter {
    EntryFilter::new(&strings(includes), &strings(excludes), case_sensitive).unwrap()
}

#[test]
fn case_insensitive_matching_is_the_default() {
    let filter = build_filter(&["*.MP3"], &[], false);
    assert!(filter.keep_file(&"song.mp3".to_string()));
    assert!(filter.keep_file(&"SONG.MP3".to_string()));
}

#[test]
fn case_sensitive_matching_when_requested() {
    let filter = build_filter(&["*.MP3"], &[], true);
    assert!(!filter.keep_file(&"song.mp3".to_string()));
    assert!(filter.keep_file(&"song.MP3".to_string()));
}

#[test]
fn file_kept_iff_included_and_not_excluded() {
    let filter = build_filter(&["*.wav"], &[], false);
    assert!(filter.keep_file(&"a.wav".to_string()));
    assert!(!filter.keep_file(&"b.txt".to_string()));

    let filter = build_filter(&["*.wav"], &["*b*"], false);
    assert!(filter.keep_file(&"a.wav".to_string()));
    assert!(!filter.keep_file(&"b.wav".to_string()));
}

#[test]
fn exclude_takes_precedence_over_include() {
    let filter = build_filter(&["*"], &["*.wav"], false);
    assert!(!filter.keep_file(&"a.wav".to_string()));
    assert!(filter.keep_file(&"a.txt".to_string()));
}

#[test]
fn empty_include_set_matches_no_file() {
    let filter = build_filter(&[], &[], false);
    assert!(!filter.keep_file(&"a.wav".to_string()));
    assert!(!filter.keep_file(&"anything".to_string()));
    // Directories are only tested against the exclude set.
    assert!(filter.keep_dir(&"some/dir".to_string()));
}

#[test]
fn invalid_pattern_is_a_pattern_error() {
    let r = EntryFilter::new(&strings(&["a["]), &strings(&[]), false);
    assert!(matches!(r, Err(ScanError::Pattern { .. })));
}

fn sample_tree() -> FsEntry {
    FsEntry::Dir {
        path: "root".to_string(),
        entries: vec![
            FsEntry::File { path: "root/a.wav".to_string() },
            FsEntry::Dir {
                path: "root/skip".to_string(),
                entries: vec![FsEntry::File { path: "root/skip/b.wav".to_string() }],
            },
            FsEntry::File { path: "root/c.txt".to_string() },
        ],
    }
}

#[test]
fn excluded_directory_prunes_its_whole_subtree() {
    // root/skip/b.wav matches the include pattern, but its directory is
    // excluded, so it is never visited.
    let filter = build_filter(&["*.wav"], &["*skip*"], false);
    let plan = plan_walk(&sample_tree(), &filter);
    assert_eq!(plan, vec!["root/a.wav".to_string()]);
}

#[test]
fn walk_visits_kept_files_in_declared_order() {
    let filter = build_filter(&["*.wav"], &[], false);
    let plan = plan_walk(&sample_tree(), &filter);
    assert_eq!(plan, vec!["root/a.wav".to_string(), "root/skip/b.wav".to_string()]);
}

#[test]
fn walk_with_empty_include_visits_nothing() {
    let filter = build_filter(&[], &[], false);
    let plan = plan_walk(&sample_tree(), &filter);
    assert!(plan.is_empty());
}

#[test]
fn repeated_walks_give_identical_plans() {
    let filter = build_filter(&["*.wav"], &["*skip*"], false);
    let first = plan_walk(&sample_tree(), &filter);
    let second = plan_walk(&sample_tree(), &filter);
    assert_eq!(first, second);
}
