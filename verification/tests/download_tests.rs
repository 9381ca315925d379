use conic_launcher::config::download::{DownloadConfig, MirrorConfig};
use conic_launcher::download::chunk::{
    accepts_byte_ranges, after_chunk_attempt, calculate_chunks_length, check_chunk_length,
    chunk_attempts, chunk_workers, range_header, ranged_length,
};
use conic_launcher::download::engine::plan_downloads;
use conic_launcher::download::mirror::{rewrite_origin, MirrorPool, MirrorUsage};
use conic_launcher::download::model::{
    filter_existing_and_verified_files, Checksum, DownloadTask, DownloadType,
};
use conic_launcher::download::retry::{AfterAttempt, Attempts};
use conic_launcher::download::speed::{
    sample_interval_millis, should_throttle, throttle_pause_millis, SpeedWindow,
};
use conic_launcher::download::task::{Progress, ProgressError, Step};
use conic_launcher::error::Error;

fn task(url: &str, kind: DownloadType, checksum: Checksum) -> DownloadTask {
    DownloadTask {
        url: url.to_string(),
        file: "/data/file".to_string(),
        size_bytes: Some(3),
        checksum,
        kind,
    }
}

fn loads(pool: &MirrorPool) -> Vec<u64> {
    pool.mirrors.iter().map(|m| m.in_flight).collect()
}

fn urls(pool: &MirrorPool) -> Vec<String> {
    pool.mirrors.iter().map(|m| m.url.clone()).collect()
}

fn two_mirrors() -> MirrorConfig {
    MirrorConfig {
        libraries: vec!["https://m1.example/maven".to_string(), "https://m2.example/maven".to_string()],
        assets: vec!["https://a1.example/assets".to_string()],
    }
}

#[test]
fn chunk_sizing_of_twenty_megabytes() {
    let chunks = calculate_chunks_length(20_000_000);
    assert_eq!(chunks.len(), 11);
    assert_eq!(chunks[0], (0, 1_818_180));
    assert_eq!(chunks[1], (1_818_181, 3_636_361));
    assert_eq!(chunks[10], (18_181_810, 19_999_999));
}

#[test]
fn chunk_counts_at_the_bounds() {
    assert!(calculate_chunks_length(0).is_empty());
    assert_eq!(calculate_chunks_length(1), vec![(0, 0)]);
    assert_eq!(calculate_chunks_length(4_000_000), vec![(0, 3_999_999)]);
    assert_eq!(calculate_chunks_length(4_000_001).len(), 3);
    assert_eq!(calculate_chunks_length(29_999_999).len(), 15);
    assert_eq!(calculate_chunks_length(30_000_000).len(), 8);
    assert_eq!(calculate_chunks_length(100_000_000).len(), 26);
    assert_eq!(calculate_chunks_length(100_000_001).len(), 11);
}

#[test]
fn chunks_cover_the_file_without_gaps() {
    for length in [1u64, 5, 4_000_001, 12_345_678, 30_000_000, 99_999_999, 250_000_007] {
        let chunks = calculate_chunks_length(length);
        assert_eq!(chunks[0].0, 0);
        assert_eq!(chunks[chunks.len() - 1].1, length - 1);
        for i in 0..chunks.len() {
            assert!(chunks[i].0 <= chunks[i].1);
            if i + 1 < chunks.len() {
                assert_eq!(chunks[i + 1].0, chunks[i].1 + 1);
            }
        }
    }
}

#[test]
fn range_requests_and_their_answers() {
    assert_eq!(range_header((18_181_810, 19_999_999)), "bytes=18181810-19999999");
    assert_eq!(range_header((0, 0)), "bytes=0-0");
    assert!(check_chunk_length((10, 19), 10).is_ok());
    assert!(matches!(check_chunk_length((10, 19), 9), Err(Error::ChunkLengthMismatch)));
    assert!(matches!(check_chunk_length((10, 19), 0), Err(Error::ChunkLengthMismatch)));
    assert!(check_chunk_length((0, u64::MAX - 1), u64::MAX).is_ok());
    assert!(matches!(check_chunk_length((5, 4), 0), Err(Error::ChunkLengthMismatch)));
    assert!(accepts_byte_ranges("bytes"));
    assert!(accepts_byte_ranges("Bytes"));
    assert!(!accepts_byte_ranges("none"));
    assert!(!accepts_byte_ranges(""));
    assert_eq!(ranged_length(Some(10), Some(true)), Some(10));
    assert_eq!(ranged_length(Some(10), Some(false)), None);
    assert_eq!(ranged_length(Some(10), None), None);
    assert_eq!(ranged_length(None, Some(true)), None);
    assert_eq!(ranged_length(Some(0), Some(true)), None);
    assert_eq!(chunk_attempts(), 10);
    assert_eq!(chunk_workers(), 4);
}

#[test]
fn throttling_above_the_limit() {
    assert!(should_throttle(250_000, 100_000));
    assert!(!should_throttle(100_000, 100_000));
    assert!(!should_throttle(50_000, 100_000));
    assert!(!should_throttle(250_000, 0));
    assert!(!should_throttle(250_000, 1024));
    assert!(should_throttle(250_000, 1025));
    assert_eq!(throttle_pause_millis(), 100);
    assert_eq!(sample_interval_millis(), 2000);
}

#[test]
fn speed_window_keeps_twenty_samples() {
    let mut window = SpeedWindow::new();
    assert_eq!(window.record(5), 5);
    assert_eq!(window.record(7), 12);
    for _ in 0..18 {
        window.record(1);
    }
    assert_eq!(window.samples.len(), 20);
    assert_eq!(window.record(100), 7 + 18 + 100);
    assert_eq!(window.samples.len(), 20);
    assert_eq!(window.samples[0], 7);
    assert_eq!(window.samples[19], 100);
    let mut big = SpeedWindow::new();
    big.record(u64::MAX);
    assert_eq!(big.record(1), u64::MAX);
}

#[test]
fn mirror_rotation_on_failure() {
    let mut usage = MirrorUsage::new(&two_mirrors());
    let library = task(
        "https://libraries.minecraft.net/a/b/1/b-1.jar",
        DownloadType::Libraries,
        Checksum::Unchecked,
    );
    let mut attempts = Attempts::new();

    let (first, mirror) = attempts.begin(&library, &mut usage);
    let mirror = mirror.unwrap();
    assert_eq!(mirror.url, "https://m1.example/maven");
    assert_eq!(first.url, "https://m1.example/maven/a/b/1/b-1.jar");
    assert_eq!(first.file, library.file);
    assert_eq!(first.size_bytes, library.size_bytes);
    assert_eq!(first.kind, library.kind);
    assert!(matches!(first.checksum, Checksum::Unchecked));
    assert_eq!(loads(&usage.libraries), vec![1, 0]);
    let next = attempts.finish(DownloadType::Libraries, &mut usage, Some(mirror), false);
    assert_eq!(next, AfterAttempt::Retry);
    assert_eq!(loads(&usage.libraries), vec![0, 0]);
    assert_eq!(attempts.disabled_mirrors, vec!["https://m1.example/maven"]);

    let (second, mirror) = attempts.begin(&library, &mut usage);
    let mirror = mirror.unwrap();
    assert_eq!(mirror.url, "https://m2.example/maven");
    assert_eq!(second.url, "https://m2.example/maven/a/b/1/b-1.jar");
    assert_eq!(attempts.finish(DownloadType::Libraries, &mut usage, Some(mirror), false), AfterAttempt::Retry);

    let (third, mirror) = attempts.begin(&library, &mut usage);
    assert!(mirror.is_none());
    assert_eq!(third.url, "https://libraries.minecraft.net/a/b/1/b-1.jar");
    assert_eq!(attempts.finish(DownloadType::Libraries, &mut usage, None, false), AfterAttempt::Retry);

    let (_, mirror) = attempts.begin(&library, &mut usage);
    assert!(mirror.is_none());
    assert_eq!(attempts.finish(DownloadType::Libraries, &mut usage, None, false), AfterAttempt::Retry);
    let (_, mirror) = attempts.begin(&library, &mut usage);
    assert!(mirror.is_none());
    assert_eq!(attempts.tried, 5);
    assert_eq!(attempts.finish(DownloadType::Libraries, &mut usage, None, false), AfterAttempt::GiveUp);
}

#[test]
fn a_success_ends_the_attempts() {
    let mut usage = MirrorUsage::new(&two_mirrors());
    let asset = task(
        "https://resources.download.minecraft.net/ab/abcdef",
        DownloadType::Assets,
        Checksum::Unchecked,
    );
    let mut attempts = Attempts::new();
    let (assigned, mirror) = attempts.begin(&asset, &mut usage);
    assert_eq!(assigned.url, "https://a1.example/assets/ab/abcdef");
    assert_eq!(loads(&usage.assets), vec![1]);
    assert_eq!(attempts.finish(DownloadType::Assets, &mut usage, mirror, true), AfterAttempt::Done);
    assert_eq!(loads(&usage.assets), vec![0]);
    assert!(attempts.disabled_mirrors.is_empty());
}

#[test]
fn the_least_loaded_mirror_is_picked() {
    let mut pool = MirrorPool::new(&vec!["a".to_string(), "b".to_string(), "c".to_string()]);
    pool.acquire(0);
    pool.acquire(0);
    pool.acquire(1);
    assert_eq!(loads(&pool), vec![2, 1, 0]);
    assert_eq!(pool.pick(&vec![]).unwrap().url, "c");
    assert_eq!(pool.pick(&vec!["c".to_string()]).unwrap().url, "b");
    assert_eq!(pool.pick(&vec!["c".to_string(), "b".to_string()]).unwrap().url, "a");
    assert!(pool.pick(&vec!["c".to_string(), "b".to_string(), "a".to_string()]).is_none());
    pool.release(0);
    pool.release(2);
    assert_eq!(loads(&pool), vec![1, 1, 0]);
    pool.acquire(2);
    assert_eq!(pool.pick(&vec![]).unwrap().index, 0);
    pool.acquire(7);
    pool.release(7);
    assert_eq!(loads(&pool), vec![1, 1, 1]);
    pool.release(2);
    pool.release(2);
    assert_eq!(loads(&pool), vec![1, 1, 0]);
}

#[test]
fn tasks_of_other_kinds_get_no_mirror() {
    let mut usage = MirrorUsage::new(&two_mirrors());
    let java = task("https://piston-data.mojang.com/x", DownloadType::MojangJava, Checksum::Unchecked);
    assert!(java.assignment_mirror(&mut usage, &vec![]).is_none());
    assert_eq!(loads(&usage.libraries), vec![0, 0]);
    let elsewhere = task("https://maven.fabricmc.net/x.jar", DownloadType::Libraries, Checksum::Unchecked);
    let (assigned, mirror) = elsewhere.assignment_mirror(&mut usage, &vec![]).unwrap();
    assert_eq!(assigned.url, "https://maven.fabricmc.net/x.jar");
    assert_eq!(mirror.index, 0);
    assert_eq!(rewrite_origin("https://o/x", "https://o", "https://m"), "https://m/x");
    assert_eq!(rewrite_origin("http://o/x", "https://o", "https://m"), "http://o/x");
    assert_eq!(rewrite_origin("https://o/https://o", "https://o", "m"), "m/https://o");
}

#[test]
fn classification_by_host() {
    let asset = task("https://resources.download.minecraft.net/ab/abcd", DownloadType::Unknown, Checksum::Unchecked);
    assert_eq!(asset.classify().unwrap().kind, DownloadType::Assets);
    let library = task("https://libraries.minecraft.net/a.jar", DownloadType::Unknown, Checksum::Unchecked);
    assert_eq!(library.classify().unwrap().kind, DownloadType::Libraries);
    let other = task("https://piston-data.mojang.com/v1/objects/x/client.jar", DownloadType::Unknown, Checksum::Unchecked);
    assert_eq!(other.classify().unwrap().kind, DownloadType::Unknown);
    let no_host = task("data:text/plain,x", DownloadType::Unknown, Checksum::Unchecked);
    assert_eq!(no_host.classify().unwrap().kind, DownloadType::Unknown);
    let known = task("not a url", DownloadType::VersionInfo, Checksum::Unchecked);
    assert_eq!(known.classify().unwrap().kind, DownloadType::VersionInfo);
    let broken = task("not a url", DownloadType::Unknown, Checksum::Unchecked);
    match broken.classify() {
        Err(Error::UrlParse(message)) => assert!(!message.is_empty()),
        _ => panic!("expected UrlParse"),
    }
    assert_eq!(asset.classify_with(Some("libraries.minecraft.net")).kind, DownloadType::Libraries);
    assert_eq!(asset.classify_with(None).kind, DownloadType::Unknown);
    let classified = asset.classify().unwrap();
    assert_eq!(classified.url, asset.url);
    assert_eq!(classified.file, asset.file);
    assert_eq!(classified.size_bytes, asset.size_bytes);
}

#[test]
fn checksums_are_verified_ignoring_case() {
    let sha1 = Checksum::Sha1("A9993E364706816ABA3E25717850C26C9CD0D89D".to_string());
    assert_eq!(sha1.verify(b"abc"), Some(true));
    assert_eq!(sha1.verify(b"abd"), Some(false));
    let lower = Checksum::Sha1("a9993e364706816aba3e25717850c26c9cd0d89d".to_string());
    assert_eq!(lower.verify(b"abc"), Some(true));
    let sha256 = Checksum::Sha256(
        "ba7816bf8f01cfea414140de5dae2223b00361a396177a9cb410ff61f20015ad".to_string(),
    );
    assert_eq!(sha256.verify(b"abc"), Some(true));
    assert_eq!(sha256.verify(b""), Some(false));
    assert_eq!(Checksum::Sha1("abc".to_string()).verify(b"abc"), Some(false));
    assert_eq!(Checksum::Unchecked.verify(b"abc"), None);
}

#[test]
fn files_are_fetched_unless_present_and_matching() {
    let checked = task("https://x/y", DownloadType::Unknown, Checksum::Sha1("a9993e364706816aba3e25717850c26c9cd0d89d".to_string()));
    assert!(checked.needs_download(None));
    assert!(!checked.needs_download(Some(b"abc")));
    assert!(checked.needs_download(Some(b"abcd")));
    let unchecked = task("https://x/y", DownloadType::Unknown, Checksum::Unchecked);
    assert!(unchecked.needs_download(Some(b"abc")));
    assert!(checked.check_downloaded(b"abc").is_ok());
    match checked.check_downloaded(b"other") {
        Err(Error::Sha1Missmatch(url)) => assert_eq!(url, "https://x/y"),
        _ => panic!("expected Sha1Missmatch"),
    }
    assert!(unchecked.check_downloaded(b"anything").is_ok());
}

#[test]
fn only_needed_tasks_are_planned() {
    let tasks = vec![
        task("https://libraries.minecraft.net/a.jar", DownloadType::Unknown, Checksum::Unchecked),
        task("https://resources.download.minecraft.net/ab/ab", DownloadType::Unknown, Checksum::Unchecked),
        task("https://x/c", DownloadType::Unknown, Checksum::Unchecked),
    ];
    let kept = filter_existing_and_verified_files(&tasks, &vec![true, false, true]);
    assert_eq!(kept.len(), 2);
    assert_eq!(kept[0].url, "https://libraries.minecraft.net/a.jar");
    assert_eq!(kept[1].url, "https://x/c");
    let short = filter_existing_and_verified_files(&tasks, &vec![false]);
    assert_eq!(short.len(), 2);
    assert_eq!(short[0].url, "https://resources.download.minecraft.net/ab/ab");
    assert_eq!(short[1].url, "https://x/c");
    assert_eq!(filter_existing_and_verified_files(&tasks, &vec![]).len(), 3);

    let mut progress = Progress::new();
    progress.begin_verification();
    progress.advance(3);
    assert_eq!(progress, Progress { completed: 3, total: 0, step: Step::VerifyExistingFiles, speed: 0 });
    let planned = plan_downloads(&tasks, &vec![true, true, false], &mut progress).unwrap();
    assert_eq!(planned.len(), 2);
    assert_eq!(planned[0].kind, DownloadType::Libraries);
    assert_eq!(planned[1].kind, DownloadType::Assets);
    assert_eq!(progress, Progress { completed: 0, total: 2, step: Step::DownloadFiles, speed: 0 });

    let bad = vec![task("::", DownloadType::Unknown, Checksum::Unchecked)];
    let mut untouched = Progress::new();
    untouched.advance(1);
    assert!(matches!(plan_downloads(&bad, &vec![true], &mut untouched), Err(Error::UrlParse(_))));
    assert_eq!(untouched.completed, 1);
    assert!(plan_downloads(&bad, &vec![false], &mut untouched).unwrap().is_empty());
}

#[test]
fn progress_of_a_single_file() {
    let mut progress = Progress::new();
    progress.set_speed(9);
    progress.begin_single(Some(100));
    assert_eq!(progress, Progress { completed: 0, total: 100, step: Step::DownloadFiles, speed: 0 });
    progress.advance(40);
    progress.advance(u64::MAX);
    assert_eq!(progress.completed, u64::MAX);
    progress.finish_single();
    assert_eq!(progress.completed, 100);
    assert_eq!(progress.send(), progress);
    progress.reset();
    assert_eq!(progress, Progress::default());
    progress.begin_single(None);
    assert_eq!(progress.total, 0);
    assert_eq!(ProgressError::send(3).step, 3);
}

#[test]
fn download_defaults() {
    let config = DownloadConfig::default();
    assert_eq!(config.max_connections, 100);
    assert_eq!(config.max_download_speed, 0);
    assert_eq!(
        config.mirror.libraries,
        vec!["https://libraries.minecraft.net", "https://bmclapi2.bangbang93.com/maven"]
    );
    assert_eq!(
        config.mirror.assets,
        vec!["https://resources.download.minecraft.net", "https://bmclapi2.bangbang93.com/assets"]
    );
    let usage = MirrorUsage::new(&config.mirror);
    assert_eq!(urls(&usage.libraries), config.mirror.libraries);
    assert_eq!(loads(&usage.assets), vec![0, 0]);
}

#[test]
fn a_mirrored_task_differs_in_its_address_only() {
    let mut usage = MirrorUsage::new(&two_mirrors());
    let asset = task(
        "https://resources.download.minecraft.net/ab/abcdef",
        DownloadType::Assets,
        Checksum::Sha1("abcdef".to_string()),
    );
    let (assigned, mirror) = asset.clone().assignment_mirror(&mut usage, &vec![]).unwrap();
    assert_eq!(mirror.url, "https://a1.example/assets");
    assert_eq!(assigned.url, "https://a1.example/assets/ab/abcdef");
    assert_eq!(assigned.file, asset.file);
    assert_eq!(assigned.size_bytes, asset.size_bytes);
    assert_eq!(assigned.kind, asset.kind);
    match (&assigned.checksum, &asset.checksum) {
        (Checksum::Sha1(a), Checksum::Sha1(b)) => assert_eq!(a, b),
        _ => panic!("the digest has to stay"),
    }
    assert!(asset.clone().assignment_mirror(&mut usage, &vec!["https://a1.example/assets".to_string()]).is_none());
    assert_eq!(loads(&usage.assets), vec![1]);
}

#[test]
fn a_chunk_is_tried_ten_times() {
    assert_eq!(after_chunk_attempt(1, true), AfterAttempt::Done);
    assert_eq!(after_chunk_attempt(10, true), AfterAttempt::Done);
    assert_eq!(after_chunk_attempt(1, false), AfterAttempt::Retry);
    assert_eq!(after_chunk_attempt(9, false), AfterAttempt::Retry);
    assert_eq!(after_chunk_attempt(10, false), AfterAttempt::GiveUp);
    assert_eq!(after_chunk_attempt(11, false), AfterAttempt::GiveUp);
}

#[test]
fn a_mirror_that_is_configured_twice_is_in_the_pool_once() {
    let pool = MirrorPool::new(&vec![
        "https://m1".to_string(),
        "https://m2".to_string(),
        "https://m1".to_string(),
        "https://m3".to_string(),
        "https://m2".to_string(),
    ]);
    assert_eq!(urls(&pool), vec!["https://m1", "https://m2", "https://m3"]);
    assert_eq!(loads(&pool), vec![0, 0, 0]);
}

#[test]
fn an_attempt_leaves_the_counters_as_they_were() {
    let mut usage = MirrorUsage::new(&two_mirrors());
    usage.libraries.acquire(1);
    usage.assets.acquire(0);
    let library = task(
        "https://libraries.minecraft.net/a/b/1/b-1.jar",
        DownloadType::Libraries,
        Checksum::Unchecked,
    );
    let mut attempts = Attempts::new();
    let (_, mirror) = attempts.begin(&library, &mut usage);
    assert_eq!(loads(&usage.libraries), vec![1, 1]);
    assert_eq!(loads(&usage.assets), vec![1]);
    attempts.finish(DownloadType::Libraries, &mut usage, mirror, false);
    assert_eq!(loads(&usage.libraries), vec![0, 1]);
    assert_eq!(loads(&usage.assets), vec![1]);
    let (_, mirror) = attempts.begin(&library, &mut usage);
    assert_eq!(mirror.as_ref().unwrap().index, 1);
    assert_eq!(loads(&usage.libraries), vec![0, 2]);
    attempts.finish(DownloadType::Libraries, &mut usage, mirror, true);
    assert_eq!(loads(&usage.libraries), vec![0, 1]);
    assert_eq!(loads(&usage.assets), vec![1]);
}
