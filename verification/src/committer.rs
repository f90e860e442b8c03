use vstd::prelude::*;
use vstd::arithmetic::div_mod::{lemma_div_is_ordered, lemma_div_plus_one, lemma_div_pos_is_pos,
    lemma_multiply_divide_lt};
use vstd::string::StrSliceExecFns;
use vstd::utf8::encode_utf8;
use rand::distributions::Distribution;
use crate::dates::{Date, date_minus_days, date_plus_days, next_day, prev_day, should_skip_date,
    spec_should_skip, valid_date, wd_minus_days, wd_plus_days};
use crate::errors::{GitTerminalError, RepositoryError};
use crate::gitstore::{open_repository, repository_author, repository_index, index_write_tree,
    reset_head_mixed, store_oid_of, write_commit_object};
use crate::hasher::{hex_encode, spec_hex};
use crate::options::Options;
use crate::writer::{SP, generate_initial_blob, generate_non_initial_blob, push_bytes,
    spec_commit_blob};

verus! {

/// The largest supported history span, in days. It is far longer than any
/// plausible run and keeps every timestamp computation inside the machine's
/// integer ranges.
pub const MAX_DAYS_TO_COMMIT: u64 = 36_500_000;

/// Relies on time's OffsetDateTime::now_utc and its accessors: the current
/// instant's whole seconds since the epoch, its UTC calendar date, and that
/// date's weekday counted from Sunday = 0. The crate documents that the date
/// is a valid calendar date with a year of magnitude at most 9999, which also
/// bounds the possible timestamp. The call itself panics when the system
/// clock lies outside the years the crate can represent, an environmental
/// failure no input can avoid.
#[verifier::external_body]
fn now_utc_parts() -> (r: (i64, Date, u8))
    ensures
        valid_date(r.1),
        -10_000 <= r.1.year <= 10_000,
        r.2 < 7,
        -400_000_000_000 <= r.0 <= 400_000_000_000,
{
    let t = time::OffsetDateTime::now_utc();
    let d = t.date();
    let date = Date { year: d.year(), month: u8::from(d.month()), day: d.day() };
    (t.unix_timestamp(), date, d.weekday().number_days_from_sunday())
}

/// The total of a sequence of weights.
pub open spec fn spec_sum(s: Seq<u32>) -> int
    decreases s.len(),
{
    if s.len() == 0 {
        0
    } else {
        spec_sum(s.drop_last()) + s.last()
    }
}

proof fn lemma_sum_push(s: Seq<u32>, x: u32)
    ensures
        spec_sum(s.push(x)) == spec_sum(s) + x,
{
    assert(s.push(x).drop_last() =~= s);
    assert(s.push(x).last() == x);
}

/// Relies on rand's WeightedIndex distribution and thread_rng: sampling
/// returns an index into the weights. With the weights nonempty and their
/// total positive and within u32 range, constructing the distribution cannot
/// fail.
#[verifier::external_body]
fn sample_weighted(weights: &Vec<u32>) -> (idx: usize)
    requires
        weights@.len() >= 1,
        0 < spec_sum(weights@) <= u32::MAX as int,
    ensures
        idx < weights@.len(),
{
    let dist = rand::distributions::WeightedIndex::new(weights.iter()).unwrap();
    dist.sample(&mut rand::thread_rng())
}

/// Appends one weight to the table, keeping track of the total.
fn push_weight(weights: &mut Vec<u32>, w: u32)
    ensures
        final(weights)@ == old(weights)@.push(w),
        spec_sum(final(weights)@) == spec_sum(old(weights)@) + w,
{
    proof {
        lemma_sum_push(weights@, w);
    }
    weights.push(w);
}

/// The minute offset within the day of commit number `i` out of `k`, spacing
/// the `k` commits evenly over the day's 1440 minutes: the nearest integer to
/// 1440 * i / k, halves rounded up.
pub open spec fn spec_commit_minute(k: int, i: int) -> int {
    (2880 * i + k) / (2 * k)
}

/// The minute offset of each commit lies within the day.
pub proof fn lemma_commit_minute_bounds(k: int, i: int)
    requires
        1 <= k <= 13,
        0 <= i < k,
    ensures
        0 <= spec_commit_minute(k, i) < 1440,
{
    lemma_div_pos_is_pos(2880 * i + k, 2 * k);
    assert(2880 * i + k < 1440 * (2 * k)) by (nonlinear_arith)
        requires
            1 <= k <= 13,
            0 <= i < k,
    ;
    lemma_multiply_divide_lt(2880 * i + k, 2 * k, 1440);
}

/// Within one day, later commits get strictly later minute offsets.
pub proof fn lemma_commit_minute_increases(k: int, i: int)
    requires
        1 <= k <= 13,
        0 <= i < k - 1,
    ensures
        spec_commit_minute(k, i) < spec_commit_minute(k, i + 1),
{
    let a = 2880 * i + k;
    let d = 2 * k;
    lemma_div_plus_one(a, d);
    lemma_div_is_ordered(a + d, 2880 * (i + 1) + k, d);
    assert(2880 * (i + 1) + k == a + 2880);
}

/// The minute offset of commit `i` out of `k` within a day.
pub fn commit_minute(k: u64, i: u64) -> (m: u64)
    requires
        1 <= k <= 13,
        i < k,
    ensures
        m as int == spec_commit_minute(k as int, i as int),
        m < 1440,
{
    proof {
        lemma_commit_minute_bounds(k as int, i as int);
    }
    (2880 * i + k) / (2 * k)
}

/// The author line of a commit: the identity's name and email address.
pub open spec fn spec_author_line(name: Seq<u8>, email: Seq<u8>) -> Seq<u8> {
    name + seq![SP, 60u8] + email + seq![62u8]
}

/// One link of a generated chain: a commit object's bytes, the identifier the
/// store assigned to it, the identifier of its parent, and the timestamp and
/// calendar day it was generated for.
pub struct Link {
    pub blob: Seq<u8>,
    pub oid: Seq<u8>,
    pub parent: Option<Seq<u8>>,
    pub ts: int,
    pub date: Date,
    pub weekday: u8,
}

/// The textual form in which a parent identifier appears inside a commit
/// object: its lowercase hexadecimal rendering.
pub open spec fn spec_parent_text(parent: Option<Seq<u8>>) -> Option<Seq<u8>> {
    match parent {
        Option::None => Option::None,
        Option::Some(oid) => Option::Some(spec_hex(oid)),
    }
}

/// The logical fields a chain is generated from.
pub struct CommitterView {
    pub tree: Seq<u8>,
    pub author: Seq<u8>,
    pub message: Seq<u8>,
    pub days_to_commit: int,
}

/// The link's bytes are the canonical encoding of the committer's fields with
/// the link's parent and timestamp, and its identifier is the one the store
/// assigns to exactly those bytes.
pub open spec fn link_renders_ok(l: Link, cfg: CommitterView) -> bool {
    &&& l.blob == spec_commit_blob(cfg.tree, spec_parent_text(l.parent), cfg.author, cfg.message, l.ts)
    &&& l.oid == store_oid_of(l.blob)
    &&& l.oid.len() == 20
}

/// The link sits on a working day: a valid calendar date that is neither a
/// weekend day nor a holiday.
pub open spec fn link_day_ok(l: Link) -> bool {
    &&& valid_date(l.date)
    &&& l.weekday < 7
    &&& !spec_should_skip(l.date, l.weekday)
}

/// Well-formedness of a whole generated chain: it starts with the parentless
/// initial commit at the start instant; every later link's parent is the
/// identifier of the link before it; every link's bytes and identifier are
/// canonical; timestamps strictly increase; and every link after the first
/// sits on a working day.
#[verifier::opaque]
pub open spec fn chain_ok(c: Seq<Link>, cfg: CommitterView, start_ts: int) -> bool {
    &&& c.len() >= 1
    &&& c[0].parent is None
    &&& c[0].ts == start_ts
    &&& forall|i: int| 0 <= i < c.len() ==> link_renders_ok(#[trigger] c[i], cfg)
    &&& forall|i: int| 1 <= i < c.len() ==> (#[trigger] c[i]).parent == Option::Some(c[i - 1].oid)
    &&& forall|i: int| 1 <= i < c.len() ==> c[i - 1].ts < (#[trigger] c[i]).ts
    &&& forall|i: int| 1 <= i < c.len() ==> link_day_ok(#[trigger] c[i])
}

/// Chain linkage: in a well-formed chain every commit after the first names
/// as its parent exactly the identifier produced for the commit immediately
/// before it.
pub proof fn lemma_chain_linkage(c: Seq<Link>, cfg: CommitterView, start_ts: int, i: int)
    requires
        chain_ok(c, cfg, start_ts),
        1 <= i < c.len(),
    ensures
        c[i].parent == Option::Some(c[i - 1].oid),
        c[i].blob == spec_commit_blob(
            cfg.tree,
            Option::Some(spec_hex(c[i - 1].oid)),
            cfg.author,
            cfg.message,
            c[i].ts,
        ),
{
    reveal(chain_ok);
}

/// Day-skip invariant: in a well-formed chain every commit after the first
/// was generated for a calendar day that is neither a weekend day nor one of
/// the fixed holidays.
pub proof fn lemma_chain_day_skip(c: Seq<Link>, cfg: CommitterView, start_ts: int, i: int)
    requires
        chain_ok(c, cfg, start_ts),
        1 <= i < c.len(),
    ensures
        !spec_should_skip(c[i].date, c[i].weekday),
        valid_date(c[i].date),
{
    reveal(chain_ok);
}

/// A single parentless canonical link is a well-formed chain starting at its
/// own timestamp.
proof fn lemma_chain_singleton(l: Link, cfg: CommitterView)
    requires
        link_renders_ok(l, cfg),
        l.parent is None,
    ensures
        chain_ok(seq![l], cfg, l.ts),
{
    reveal(chain_ok);
}

/// Appending a canonical link chained to the last identifier, with a later
/// timestamp and on a working day, preserves chain well-formedness.
proof fn lemma_chain_push(c: Seq<Link>, l: Link, cfg: CommitterView, start_ts: int)
    requires
        chain_ok(c, cfg, start_ts),
        link_renders_ok(l, cfg),
        link_day_ok(l),
        l.parent == Option::Some(c.last().oid),
        c.last().ts < l.ts,
    ensures
        chain_ok(c.push(l), cfg, start_ts),
{
    reveal(chain_ok);
    let c2 = c.push(l);
    assert forall|i: int| 0 <= i < c2.len() implies link_renders_ok(#[trigger] c2[i], cfg) by {
        if i < c.len() {
            assert(c2[i] == c[i]);
        } else {
            assert(c2[i] == l);
        }
    }
    assert forall|i: int| 1 <= i < c2.len() implies (#[trigger] c2[i]).parent == Option::Some(
        c2[i - 1].oid,
    ) by {
        if i < c.len() {
            assert(c2[i] == c[i] && c2[i - 1] == c[i - 1]);
        } else {
            assert(c2[i] == l && c2[i - 1] == c.last());
        }
    }
    assert forall|i: int| 1 <= i < c2.len() implies c2[i - 1].ts < (#[trigger] c2[i]).ts by {
        if i < c.len() {
            assert(c2[i] == c[i] && c2[i - 1] == c[i - 1]);
        } else {
            assert(c2[i] == l && c2[i - 1] == c.last());
        }
    }
    assert forall|i: int| 1 <= i < c2.len() implies link_day_ok(#[trigger] c2[i]) by {
        if i < c.len() {
            assert(c2[i] == c[i]);
        } else {
            assert(c2[i] == l);
        }
    }
}

/// One later day of a run's span: its calendar date and weekday, the
/// timestamp its 24-hour window starts at, whether the skip predicate ruled
/// it out, the number of commits drawn for it, and the chain index at which
/// its commits begin.
pub struct DaySample {
    pub date: Date,
    pub weekday: u8,
    pub base_ts: int,
    pub skipped: bool,
    pub count: int,
    pub lo: int,
}

/// The total of the per-day commit counts.
pub open spec fn count_sum(days: Seq<DaySample>) -> int
    decreases days.len(),
{
    if days.len() == 0 {
        0
    } else {
        count_sum(days.drop_last()) + days.last().count
    }
}

proof fn lemma_count_sum_push(days: Seq<DaySample>, s: DaySample)
    ensures
        count_sum(days.push(s)) == count_sum(days) + s.count,
{
    assert(days.push(s).drop_last() =~= days);
    assert(days.push(s).last() == s);
}

/// Commit number `i` of a day's segment: its timestamp is the day's base plus
/// the i-th even-spacing minute offset, and it is recorded for that day.
pub open spec fn day_commit_ok(l: Link, s: DaySample, i: int) -> bool {
    &&& l.ts == s.base_ts + 60 * spec_commit_minute(s.count, i)
    &&& l.date == s.date
    &&& l.weekday == s.weekday
}

/// Soundness of the sample of later day number `di` (day `di + 1` of the
/// span): its window starts `di + 1` days' worth of seconds after the start
/// instant; its date and weekday are the start day's stepped forward by
/// `di + 1`; it is marked skipped exactly when the skip predicate rules it
/// out, and a skipped day contributes no commits; an eligible day contributes
/// exactly its drawn count of commits, standing consecutively in the chain
/// right after all earlier days' commits, each at its even-spacing minute
/// offset within the day's window.
#[verifier::opaque]
pub open spec fn day_sample_ok(
    s: DaySample,
    days: Seq<DaySample>,
    chain: Seq<Link>,
    di: int,
    start_ts: int,
    start_date: Date,
    start_wd: u8,
) -> bool {
    &&& s.base_ts == start_ts + (di + 1) * 86400
    &&& s.date == date_plus_days(start_date, (di + 1) as nat)
    &&& s.weekday == wd_plus_days(start_wd, (di + 1) as nat)
    &&& valid_date(s.date)
    &&& s.weekday < 7
    &&& s.skipped == spec_should_skip(s.date, s.weekday)
    &&& 0 <= s.count < 14
    &&& (s.skipped ==> s.count == 0)
    &&& 1 <= s.lo
    &&& s.lo == 1 + count_sum(days.take(di))
    &&& s.lo + s.count <= chain.len()
    &&& forall|i: int| 0 <= i < s.count ==> day_commit_ok(#[trigger] chain[s.lo + i], s, i)
}

/// Everything one run wrote: the chain of commit objects and the schedule of
/// the later days that produced it.
pub struct RunRecord {
    pub chain: Seq<Link>,
    pub days: Seq<DaySample>,
}

/// Full soundness of a run against the present instant it started from. The
/// chain is well-formed (`chain_ok`) from the start instant `now - days`;
/// its first link carries the start day, reached by stepping the calendar
/// back from today; there is one day sample for every later day of the span,
/// each sound (`day_sample_ok`); and the chain holds exactly the initial
/// commit plus the drawn count of commits of every eligible later day.
pub open spec fn run_ok(
    rec: RunRecord,
    cfg: CommitterView,
    now_ts: int,
    today: Date,
    today_weekday: u8,
) -> bool {
    let n_days = cfg.days_to_commit;
    let start_ts = now_ts - n_days * 86400;
    let start_date = date_minus_days(today, n_days as nat);
    let start_wd = wd_minus_days(today_weekday, n_days as nat);
    &&& chain_ok(rec.chain, cfg, start_ts)
    &&& rec.chain[0].date == start_date
    &&& rec.chain[0].weekday == start_wd
    &&& rec.days.len() == (if n_days >= 1 {
        n_days - 1
    } else {
        0
    })
    &&& forall|di: int|
        0 <= di < rec.days.len() ==> day_sample_ok(
            #[trigger] rec.days[di],
            rec.days,
            rec.chain,
            di,
            start_ts,
            start_date,
            start_wd,
        )
    &&& rec.chain.len() == 1 + count_sum(rec.days)
}

/// Growing the chain does not disturb the day samples already recorded: their
/// segments lie within the part of the chain that is already there.
proof fn lemma_days_ok_chain_push(
    days: Seq<DaySample>,
    chain: Seq<Link>,
    l: Link,
    start_ts: int,
    start_date: Date,
    start_wd: u8,
)
    requires
        forall|di: int|
            0 <= di < days.len() ==> day_sample_ok(
                #[trigger] days[di],
                days,
                chain,
                di,
                start_ts,
                start_date,
                start_wd,
            ),
    ensures
        forall|di: int|
            0 <= di < days.len() ==> day_sample_ok(
                #[trigger] days[di],
                days,
                chain.push(l),
                di,
                start_ts,
                start_date,
                start_wd,
            ),
{
    reveal(day_sample_ok);
    assert forall|di: int| 0 <= di < days.len() implies day_sample_ok(
        #[trigger] days[di],
        days,
        chain.push(l),
        di,
        start_ts,
        start_date,
        start_wd,
    ) by {
        let s = days[di];
        assert(day_sample_ok(s, days, chain, di, start_ts, start_date, start_wd));
        assert(s.lo + s.count <= chain.len());
        assert forall|i: int| 0 <= i < s.count implies day_commit_ok(
            #[trigger] chain.push(l)[s.lo + i],
            s,
            i,
        ) by {
            assert(chain.push(l)[s.lo + i] == chain[s.lo + i]);
        }
    }
}

/// Recording one more sound day sample keeps every recorded sample sound.
proof fn lemma_days_ok_sample_push(
    days: Seq<DaySample>,
    chain: Seq<Link>,
    s_new: DaySample,
    start_ts: int,
    start_date: Date,
    start_wd: u8,
)
    requires
        forall|di: int|
            0 <= di < days.len() ==> day_sample_ok(
                #[trigger] days[di],
                days,
                chain,
                di,
                start_ts,
                start_date,
                start_wd,
            ),
        day_sample_ok(s_new, days, chain, days.len() as int, start_ts, start_date, start_wd),
    ensures
        forall|di: int|
            0 <= di < days.push(s_new).len() ==> day_sample_ok(
                #[trigger] days.push(s_new)[di],
                days.push(s_new),
                chain,
                di,
                start_ts,
                start_date,
                start_wd,
            ),
{
    reveal(day_sample_ok);
    let days2 = days.push(s_new);
    assert forall|di: int| 0 <= di < days2.len() implies day_sample_ok(
        #[trigger] days2[di],
        days2,
        chain,
        di,
        start_ts,
        start_date,
        start_wd,
    ) by {
        assert(days2.take(di) =~= days.take(di));
        if di < days.len() {
            assert(days2[di] == days[di]);
            assert(day_sample_ok(days[di], days, chain, di, start_ts, start_date, start_wd));
        } else {
            assert(days2[di] == s_new);
            assert(days.take(di) =~= days);
        }
    }
}

/// A Committer does the work of issuing the synthetic commits.
pub struct Committer {
    tree: Vec<u8>,
    author: Vec<u8>,
    message: Vec<u8>,
    days_to_commit: u64,
    repo: git2::Repository,
}

impl View for Committer {
    type V = CommitterView;

    closed spec fn view(&self) -> CommitterView {
        CommitterView {
            tree: self.tree@,
            author: self.author@,
            message: self.message@,
            days_to_commit: self.days_to_commit as int,
        }
    }
}

impl Committer {
    /// The committer's settings are within the supported span.
    pub open spec fn wf(&self) -> bool {
        0 <= self@.days_to_commit <= MAX_DAYS_TO_COMMIT
    }

    /// Creates a new Committer: opens the repository at the configured path
    /// and reads its staged root tree and its configured identity. On success
    /// the root tree identifier is held in its 40-digit hexadecimal form and
    /// the author as "name <email>"; each failure is reported as the matching
    /// repository error.
    pub fn new(options: Options) -> (r: Result<Committer, RepositoryError>)
        requires
            options.days_to_commit <= MAX_DAYS_TO_COMMIT,
        ensures
            r matches Ok(c) ==> {
                &&& c.wf()
                &&& c@.days_to_commit == options.days_to_commit
                &&& c@.message == encode_utf8(options.msg@)
                &&& exists|oid: Seq<u8>| oid.len() == 20 && c@.tree == spec_hex(oid)
                &&& exists|n: Seq<u8>, e: Seq<u8>| c@.author == spec_author_line(n, e)
            },
            r matches Err(e) ==> (e == RepositoryError::OpenError || e
                == RepositoryError::FindIndexError || e == RepositoryError::TreeWriteError || e
                == RepositoryError::SignatureRetrievalError || e
                == RepositoryError::NameRetrievalError || e == RepositoryError::EmailRetrievalError),
    {
        let repo = match open_repository(options.repo.as_str()) {
            Ok(r) => r,
            Err(_) => return Err(RepositoryError::OpenError),
        };
        let mut index = match repository_index(&repo) {
            Ok(i) => i,
            Err(_) => return Err(RepositoryError::FindIndexError),
        };
        let tree_oid = match index_write_tree(&mut index) {
            Ok(t) => t,
            Err(_) => return Err(RepositoryError::TreeWriteError),
        };
        let tree = hex_encode(tree_oid.as_slice());
        let (name_opt, email_opt) = match repository_author(&repo) {
            Ok(t) => t,
            Err(_) => return Err(RepositoryError::SignatureRetrievalError),
        };
        let name = match name_opt {
            Some(n) => n,
            None => return Err(RepositoryError::NameRetrievalError),
        };
        let email = match email_opt {
            Some(e) => e,
            None => return Err(RepositoryError::EmailRetrievalError),
        };
        let mut author: Vec<u8> = Vec::new();
        push_bytes(&mut author, name.as_slice());
        author.push(SP);
        author.push(60);
        push_bytes(&mut author, email.as_slice());
        author.push(62);
        proof {
            assert(author@ =~= spec_author_line(name@, email@));
        }
        let message = options.msg.as_str().as_bytes_vec();
        let c = Committer {
            tree,
            author,
            message,
            days_to_commit: options.days_to_commit,
            repo,
        };
        proof {
            assert(c@.tree == spec_hex(tree_oid@));
            assert(c@.author == spec_author_line(name@, email@));
        }
        Ok(c)
    }

    /// Generates a random number of commits for one day, drawn from the fixed
    /// weighted distribution over 0 to 13 that favors very quiet and very
    /// busy days.
    pub fn gen_rand_num_commits() -> (n: i32)
        ensures
            0 <= n < 14,
    {
        let mut choices: Vec<i32> = Vec::new();
        choices.push(0);
        choices.push(1);
        choices.push(2);
        choices.push(3);
        choices.push(4);
        choices.push(5);
        choices.push(6);
        choices.push(7);
        choices.push(8);
        choices.push(9);
        choices.push(10);
        choices.push(11);
        choices.push(12);
        choices.push(13);
        let mut weights: Vec<u32> = Vec::new();
        push_weight(&mut weights, 3);
        push_weight(&mut weights, 4);
        push_weight(&mut weights, 2);
        push_weight(&mut weights, 2);
        push_weight(&mut weights, 2);
        push_weight(&mut weights, 1);
        push_weight(&mut weights, 1);
        push_weight(&mut weights, 1);
        push_weight(&mut weights, 1);
        push_weight(&mut weights, 2);
        push_weight(&mut weights, 2);
        push_weight(&mut weights, 2);
        push_weight(&mut weights, 4);
        push_weight(&mut weights, 3);
        proof {
            assert(spec_sum(weights@) == 30);
        }
        let idx = sample_weighted(&weights);
        proof {
            assert(choices@ =~= seq![0i32, 1i32, 2i32, 3i32, 4i32, 5i32, 6i32, 7i32, 8i32, 9i32, 10i32, 11i32, 12i32, 13i32]);
        }
        choices[idx]
    }

    /// Writes the whole chain from the given present instant: one initial
    /// commit at the start of the span, then, for every later day of the
    /// span that the skip predicate does not rule out, a randomly drawn
    /// number of commits spread evenly over the day's 24-hour window, each
    /// chained to the identifier of the object written before it, and
    /// finally repositions the head reference at the last object written.
    /// On success the returned (ghost) record holds everything written, in
    /// order, and is sound in the sense of `run_ok`: the chain is linked and
    /// strictly ordered, each later day contributes exactly its drawn count
    /// of commits at their even-spacing offsets (a skipped day or a zero
    /// draw contributes nothing), and the chain's length is one more than
    /// the sum of the drawn counts. A span of zero days yields exactly the
    /// initial commit.
    #[verifier::rlimit(100)]
    pub fn commit_chain_from(&self, now_ts: i64, today: Date, today_weekday: u8) -> (r: Result<
        Ghost<RunRecord>,
        GitTerminalError,
    >)
        requires
            self.wf(),
            valid_date(today),
            -10_000 <= today.year <= 10_000,
            today_weekday < 7,
            -400_000_000_000 <= now_ts <= 400_000_000_000,
        ensures
            r matches Ok(rec) ==> {
                &&& run_ok(rec@, self@, now_ts as int, today, today_weekday)
                &&& self@.days_to_commit == 0 ==> rec@.chain.len() == 1
            },
            r matches Err(e) ==> (e == GitTerminalError::CommitObjectError || e
                == GitTerminalError::ResetHeadError),
    {
        let days = self.days_to_commit;
        let start_ts: i64 = now_ts - (days as i64) * 86400;

        // Walk the calendar back to the first day of the span.
        let mut date = today;
        let mut wd = today_weekday;
        let mut i: u64 = 0;
        while i < days
            invariant
                i <= days,
                days <= MAX_DAYS_TO_COMMIT,
                valid_date(date),
                date == date_minus_days(today, i as nat),
                wd == wd_minus_days(today_weekday, i as nat),
                date.year as int >= today.year - i,
                date.year <= today.year,
                -10_000 <= today.year <= 10_000,
                wd < 7,
            decreases days - i,
        {
            date = prev_day(date);
            wd = if wd == 0 {
                6
            } else {
                wd - 1
            };
            i = i + 1;
            proof {
                assert(date == date_minus_days(today, i as nat));
                assert(wd == wd_minus_days(today_weekday, i as nat));
            }
        }
        let ghost start_date = date;
        let ghost start_wd = wd;
        proof {
            assert(start_date == date_minus_days(today, days as nat));
            assert(start_wd == wd_minus_days(today_weekday, days as nat));
        }

        // The mandatory initial commit on the first day of the span.
        let blob0 = generate_initial_blob(
            self.tree.as_slice(),
            self.author.as_slice(),
            self.message.as_slice(),
            start_ts,
        ).unwrap();
        let mut parent = match write_commit_object(&self.repo, blob0.as_slice()) {
            Ok(o) => o,
            Err(_) => return Err(GitTerminalError::CommitObjectError),
        };
        let ghost start_link = Link {
            blob: blob0@,
            oid: parent@,
            parent: Option::None,
            ts: start_ts as int,
            date: start_date,
            weekday: start_wd,
        };
        let ghost mut chain: Seq<Link> = seq![start_link];
        let ghost mut samples: Seq<DaySample> = Seq::empty();
        proof {
            lemma_chain_singleton(start_link, self@);
        }

        // Walk forward one day at a time up to the present day, recording for
        // every later day of the span what it contributed.
        let mut d: u64 = 1;
        while d < days
            invariant
                1 <= d,
                d <= days || (days <= 1 && d == 1),
                days <= MAX_DAYS_TO_COMMIT,
                -400_000_000_000 <= now_ts <= 400_000_000_000,
                start_ts as int == now_ts - days * 86400,
                valid_date(date),
                date == date_plus_days(start_date, (d - 1) as nat),
                wd == wd_plus_days(start_wd, (d - 1) as nat),
                date.year as int <= today.year + d,
                date.year >= -40_000_000,
                -10_000 <= today.year <= 10_000,
                wd < 7,
                self.wf(),
                chain.len() >= 1,
                chain_ok(chain, self@, start_ts as int),
                chain[0].date == start_date,
                chain[0].weekday == start_wd,
                parent@.len() == 20,
                samples.len() == d - 1,
                forall|di: int|
                    0 <= di < samples.len() ==> day_sample_ok(
                        #[trigger] samples[di],
                        samples,
                        chain,
                        di,
                        start_ts as int,
                        start_date,
                        start_wd,
                    ),
                chain.len() == 1 + count_sum(samples),
                days == 0 ==> chain.len() == 1,
                parent@ == chain.last().oid,
                chain.last().ts < start_ts + d * 86400,
            decreases days - d,
        {
            let day_ts: i64 = start_ts + (d as i64) * 86400;
            date = next_day(date);
            wd = if wd == 6 {
                0
            } else {
                wd + 1
            };
            proof {
                assert(date == date_plus_days(start_date, d as nat));
                assert(wd == wd_plus_days(start_wd, d as nat));
            }
            let skip = should_skip_date(date, wd);
            let ghost lo = chain.len() as int;
            let ghost mut day_count: int = 0;
            if !skip {
                let k = Committer::gen_rand_num_commits();
                proof {
                    day_count = k as int;
                }
                let mut j: i32 = 0;
                while j < k
                    invariant
                        0 <= j <= k,
                        k < 14,
                        -400_000_000_000 - MAX_DAYS_TO_COMMIT * 86400 <= day_ts as int
                            <= 400_000_000_000,
                        day_ts as int == start_ts + d * 86400,
                        1 <= d,
                        valid_date(date),
                        wd < 7,
                        !spec_should_skip(date, wd),
                        date == date_plus_days(start_date, d as nat),
                        wd == wd_plus_days(start_wd, d as nat),
                        self.wf(),
                        chain.len() >= 1,
                        chain_ok(chain, self@, start_ts as int),
                        chain[0].date == start_date,
                        chain[0].weekday == start_wd,
                        parent@.len() == 20,
                        samples.len() == d - 1,
                        1 <= lo,
                        forall|di: int|
                            0 <= di < samples.len() ==> day_sample_ok(
                                #[trigger] samples[di],
                                samples,
                                chain,
                                di,
                                start_ts as int,
                                start_date,
                                start_wd,
                            ),
                        lo == 1 + count_sum(samples),
                        chain.len() == lo + j,
                        forall|i: int|
                            0 <= i < j ==> ((#[trigger] chain[lo + i]).ts == day_ts + 60
                                * spec_commit_minute(k as int, i) && chain[lo + i].date == date
                                && chain[lo + i].weekday == wd),
                        days == 0 ==> chain.len() == 1,
                        days >= 2,
                        parent@ == chain.last().oid,
                        j == 0 ==> chain.last().ts < day_ts as int,
                        j > 0 ==> chain.last().ts == day_ts + 60 * spec_commit_minute(
                            k as int,
                            j - 1,
                        ),
                    decreases k - j,
                {
                    let m = commit_minute(k as u64, j as u64);
                    let ct: i64 = day_ts + 60 * (m as i64);
                    let parent_hex = hex_encode(parent.as_slice());
                    let blob = generate_non_initial_blob(
                        self.tree.as_slice(),
                        parent_hex.as_slice(),
                        self.author.as_slice(),
                        self.message.as_slice(),
                        ct,
                    ).unwrap();
                    let oid = match write_commit_object(&self.repo, blob.as_slice()) {
                        Ok(o) => o,
                        Err(_) => return Err(GitTerminalError::CommitObjectError),
                    };
                    proof {
                        let l = Link {
                            blob: blob@,
                            oid: oid@,
                            parent: Option::Some(parent@),
                            ts: ct as int,
                            date: date,
                            weekday: wd,
                        };
                        if j > 0 {
                            lemma_commit_minute_increases(k as int, j - 1);
                        } else {
                            lemma_commit_minute_bounds(k as int, 0);
                        }
                        lemma_chain_push(chain, l, self@, start_ts as int);
                        lemma_days_ok_chain_push(
                            samples,
                            chain,
                            l,
                            start_ts as int,
                            start_date,
                            start_wd,
                        );
                        let chain2 = chain.push(l);
                        assert forall|i: int| 0 <= i < j + 1 implies ((#[trigger] chain2[lo
                            + i]).ts == day_ts + 60 * spec_commit_minute(k as int, i) && chain2[lo
                            + i].date == date && chain2[lo + i].weekday == wd) by {
                            if i < j {
                                assert(chain2[lo + i] == chain[lo + i]);
                            } else {
                                assert(chain2[lo + i] == l);
                            }
                        }
                        chain = chain2;
                    }
                    parent = oid;
                    j = j + 1;
                }
                proof {
                    if j > 0 {
                        lemma_commit_minute_bounds(k as int, j - 1);
                    }
                    assert(day_count == k as int);
                    assert(chain.len() == lo + day_count);
                    assert(forall|i: int|
                        0 <= i < day_count ==> ((#[trigger] chain[lo + i]).ts == day_ts + 60
                            * spec_commit_minute(day_count, i) && chain[lo + i].date == date
                            && chain[lo + i].weekday == wd));
                }
            }
            proof {
                reveal(day_sample_ok);
                let s = DaySample {
                    date: date,
                    weekday: wd,
                    base_ts: day_ts as int,
                    skipped: skip,
                    count: day_count,
                    lo: lo,
                };
                assert(chain.len() == lo + day_count);
                assert forall|i: int| 0 <= i < s.count implies day_commit_ok(
                    #[trigger] chain[s.lo + i],
                    s,
                    i,
                ) by {
                    assert(chain[lo + i].ts == day_ts + 60 * spec_commit_minute(day_count, i));
                    assert(chain[lo + i].date == date);
                    assert(chain[lo + i].weekday == wd);
                }
                assert(samples.take(samples.len() as int) =~= samples);
                assert(day_sample_ok(
                    s,
                    samples,
                    chain,
                    samples.len() as int,
                    start_ts as int,
                    start_date,
                    start_wd,
                ));
                lemma_days_ok_sample_push(
                    samples,
                    chain,
                    s,
                    start_ts as int,
                    start_date,
                    start_wd,
                );
                lemma_count_sum_push(samples, s);
                samples = samples.push(s);
            }
            d = d + 1;
        }

        // Reposition the head reference at the end of the chain.
        match reset_head_mixed(&self.repo, parent.as_slice()) {
            Ok(_) => (),
            Err(_) => return Err(GitTerminalError::ResetHeadError),
        };
        Ok(Ghost(RunRecord { chain: chain, days: samples }))
    }

    /// Writes all commits from the start of the configured span up to the
    /// present day and repositions the head reference at the last of them.
    /// Every failure of the store aborts the run with the matching error, and
    /// the head reference is then left untouched.
    pub fn commit_all(&self) -> (r: Result<(), GitTerminalError>)
        requires
            self.wf(),
        ensures
            r matches Err(e) ==> (e == GitTerminalError::CommitObjectError || e
                == GitTerminalError::ResetHeadError),
    {
        let (now_ts, today, today_weekday) = now_utc_parts();
        match self.commit_chain_from(now_ts, today, today_weekday) {
            Ok(_) => Ok(()),
            Err(e) => Err(e),
        }
    }
}

} // verus!
