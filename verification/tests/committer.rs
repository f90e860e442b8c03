use greenbois::committer::{commit_minute, Committer};
use greenbois::dates::{is_holiday, Date};
use greenbois::hasher::hash_blob;
use greenbois::options::Options;

#[test]
fn gen_rand_num_commits_stays_in_range() {
    for _ in 0..1000 {
        let n = Committer::gen_rand_num_commits();
        assert!((0..14).contains(&n));
    }
}

#[test]
fn weighted_distribution_matches_configured_weights() {
    // The weights are 3 4 2 2 2 1 1 1 1 2 2 2 4 3 over the outcomes 0..=13,
    // a total of 30. Over many samples each bucket's observed frequency must
    // come close to its configured share, and 0 must be a legal outcome.
    let weights = [3u64, 4, 2, 2, 2, 1, 1, 1, 1, 2, 2, 2, 4, 3];
    let n: u64 = 30_000;
    let mut counts = [0u64; 14];
    for _ in 0..n {
        let v = Committer::gen_rand_num_commits();
        counts[v as usize] += 1;
    }
    for i in 0..14 {
        let expected = weights[i] * n / 30;
        let tolerance = expected / 4 + 100;
        let observed = counts[i];
        assert!(
            observed + tolerance >= expected && observed <= expected + tolerance,
            "bucket {} observed {} expected {}",
            i,
            observed,
            expected
        );
    }
    assert!(counts[0] > 0);
}

#[test]
fn commit_minutes_spread_evenly_over_the_day() {
    assert_eq!(commit_minute(1, 0), 0);
    assert_eq!(commit_minute(2, 0), 0);
    assert_eq!(commit_minute(2, 1), 720);
    assert_eq!(commit_minute(3, 1), 480);
    assert_eq!(commit_minute(3, 2), 960);
    assert_eq!(commit_minute(7, 3), 617);
    assert_eq!(commit_minute(13, 12), 1329);
    for k in 1..=13u64 {
        let mut last = None;
        for i in 0..k {
            let m = commit_minute(k, i);
            assert!(m < 1440);
            if let Some(prev) = last {
                assert!(m > prev);
            }
            last = Some(m);
        }
    }
}

fn setup_repo(path: &str) -> git2::Repository {
    let repo = git2::Repository::init(path).unwrap();
    {
        let mut cfg = repo.config().unwrap();
        cfg.set_str("user.name", "Test User").unwrap();
        cfg.set_str("user.email", "test@example.com").unwrap();
    }
    repo
}

#[test]
fn zero_day_range_commits_once_and_advances_head() {
    let path = "/tmp/greenbois_test_repo_zero_days";
    setup_repo(path);

    let committer = Committer::new(Options {
        repo: path.to_string(),
        msg: "initial synthetic commit".to_string(),
        days_to_commit: 0,
        start: 10,
        end: 20,
    })
    .unwrap();
    committer.commit_all().unwrap();

    let repo = git2::Repository::open(path).unwrap();
    let head = repo.head().unwrap().peel_to_commit().unwrap();
    assert_eq!(head.message().unwrap(), "initial synthetic commit");
    assert_eq!(head.parent_count(), 0);

    // The locally computed digest of the raw object bytes must agree with the
    // identifier the store assigned when it wrote them.
    let odb = repo.odb().unwrap();
    let obj = odb.read(head.id()).unwrap();
    let local = hash_blob(obj.data());
    assert_eq!(&local[..], head.id().as_bytes());
}

#[test]
fn generated_chain_is_linked_ordered_and_skips_days_off() {
    let path = "/tmp/greenbois_test_repo_chain";
    setup_repo(path);

    let committer = Committer::new(Options {
        repo: path.to_string(),
        msg: "chain commit".to_string(),
        days_to_commit: 90,
        start: 10,
        end: 20,
    })
    .unwrap();
    committer.commit_all().unwrap();

    let repo = git2::Repository::open(path).unwrap();
    let odb = repo.odb().unwrap();
    let mut commit = repo.head().unwrap().peel_to_commit().unwrap();
    let mut times: Vec<i64> = Vec::new();
    loop {
        assert_eq!(commit.message().unwrap(), "chain commit");
        times.push(commit.time().seconds());

        // The store's identifier and the locally computed digest must agree
        // for every object of the chain.
        let obj = odb.read(commit.id()).unwrap();
        assert_eq!(&hash_blob(obj.data())[..], commit.id().as_bytes());

        if commit.parent_count() == 0 {
            break;
        }
        assert_eq!(commit.parent_count(), 1);
        commit = commit.parent(0).unwrap();
    }
    times.reverse();
    // The parentless initial commit sits exactly at the start of the span.
    let start_ts = times[0];

    for w in times.windows(2) {
        assert!(w[0] < w[1], "timestamps must strictly increase along the chain");
    }

    // Every later commit lies in the 24-hour window of a scheduled working
    // day, at a whole-minute offset from the window's start.
    for &t in &times[1..] {
        let rel = t - start_ts;
        assert!(rel > 0);
        let day_index = rel.div_euclid(86400);
        assert!(rel.rem_euclid(86400) % 60 == 0, "offsets within a day are whole minutes");

        let window_start = start_ts + day_index * 86400;
        let odt = time::OffsetDateTime::from_unix_timestamp(window_start).unwrap();
        let wd = odt.weekday().number_days_from_sunday();
        assert!(wd != 0 && wd != 6, "weekend day in chain");
        let date = Date {
            year: odt.year(),
            month: u8::from(odt.month()),
            day: odt.day(),
        };
        assert!(!is_holiday(date), "holiday in chain");
    }
    // Over 90 days at least one later working day must have produced a
    // commit; the initial commit alone would be vanishingly unlikely.
    assert!(times.len() > 1);
}
