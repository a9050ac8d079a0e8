use vstd::prelude::*;
use crate::model::User;

verus! {

/// A user joined with their point ledger: the balance now and, if recorded,
/// the balance just before its latest change.
#[derive(Debug)]
pub struct RankingRow {
    pub user: User,
    pub current: u64,
    pub previous: Option<u64>,
}

/// A user's entry in the point ledger.
#[derive(Debug)]
pub struct PointEventRecord {
    pub user_id: String,
    pub current: u64,
    pub previous: Option<u64>,
}

/// One line of a leaderboard.
#[derive(Debug)]
pub struct PointDiffRankingRecord {
    pub user: User,
    pub current: u64,
    pub diff: i64,
}

/// The rows a leaderboard is drawn from.
pub struct RankingRepository {
    pub rows: Vec<RankingRow>,
}

/// The change of a row's balance, `current - previous` taken as a signed
/// value; `0` where there is no previous balance or the change does not fit
/// in `i64`.
pub open spec fn row_diff(row: RankingRow) -> int {
    match row.previous {
        Some(p) => {
            let d = row.current - p;
            if i64::MIN <= d <= i64::MAX { d } else { 0 }
        },
        None => 0,
    }
}

/// What a leaderboard is ordered by: the change when `by_diff`, else the balance.
pub open spec fn rank_key(row: RankingRow, by_diff: bool) -> int {
    if by_diff { row_diff(row) } else { row.current as int }
}

/// The leaderboard line of a row.
pub open spec fn record_of(row: RankingRow) -> PointDiffRankingRecord {
    PointDiffRankingRecord { user: row.user, current: row.current, diff: row_diff(row) as i64 }
}

/// `order` lists distinct indices of `rows` with non-increasing keys, rows of
/// equal key in the order they have in `rows`, and no row left out ranks above
/// a row listed.
pub open spec fn ranks_first(rows: Seq<RankingRow>, by_diff: bool, order: Seq<usize>) -> bool {
    &&& forall|k: int| 0 <= k < order.len() ==> order[k] < rows.len()
    &&& forall|a: int, b: int| 0 <= a < b < order.len() ==> order[a] != order[b]
    &&& forall|a: int, b: int| 0 <= a < b < order.len()
        ==> rank_key(rows[order[a] as int], by_diff) >= rank_key(rows[order[b] as int], by_diff)
    &&& forall|a: int, b: int| 0 <= a < b < order.len()
        && rank_key(rows[order[a] as int], by_diff) == rank_key(rows[order[b] as int], by_diff)
        ==> order[a] < order[b]
    &&& forall|j: usize, k: int| j < rows.len() && !order.contains(j) && 0 <= k < order.len()
        ==> #[trigger] rank_key(rows[j as int], by_diff) <= #[trigger] rank_key(rows[order[k] as int], by_diff)
}

/// The smaller of `limit` and `n`.
pub open spec fn capped(limit: u64, n: nat) -> nat {
    if (limit as nat) < n { limit as nat } else { n }
}

/// `r` is a leaderboard of at most `limit` lines drawn from `rows` by the key
/// `by_diff` selects.
pub open spec fn is_leaderboard(rows: Seq<RankingRow>, by_diff: bool, limit: u64, r: Seq<PointDiffRankingRecord>) -> bool {
    exists|order: Seq<usize>|
        #![trigger ranks_first(rows, by_diff, order)]
        ranks_first(rows, by_diff, order) && order.len() == capped(limit, rows.len())
            && r.len() == order.len()
            && (rows.len() <= limit ==> forall|j: usize| j < rows.len() ==> order.contains(j))
            && forall|k: int| #![trigger r[k]] 0 <= k < r.len() ==> r[k] == record_of(rows[order[k] as int])
}

impl RankingRow {
    /// The change of this row's balance; see `row_diff`.
    pub fn diff(&self) -> (r: i64)
        ensures
            r == row_diff(*self),
    {
        match self.previous {
            Some(p) => {
                let d: i128 = self.current as i128 - p as i128;
                if i64::MIN as i128 <= d && d <= i64::MAX as i128 {
                    d as i64
                } else {
                    0
                }
            },
            None => 0,
        }
    }

    fn key(&self, by_diff: bool) -> (r: i128)
        ensures
            r == rank_key(*self, by_diff),
    {
        if by_diff {
            self.diff() as i128
        } else {
            self.current as i128
        }
    }
}

impl PointDiffRankingRecord {
    pub fn new(user: User, current: u64, diff: i64) -> (r: PointDiffRankingRecord)
        ensures
            r.user == user,
            r.current == current,
            r.diff == diff,
    {
        PointDiffRankingRecord { user, current, diff }
    }
}

/// The indices of all `rows`, each once, ordered by non-increasing key; rows
/// with equal keys keep the order they had in `rows`.
fn rank_order(rows: &Vec<RankingRow>, by_diff: bool) -> (order: Vec<usize>)
    ensures
        order@.len() == rows@.len(),
        forall|k: int| 0 <= k < order@.len() ==> order@[k] < rows@.len(),
        forall|a: int, b: int| 0 <= a < b < order@.len() ==> order@[a] != order@[b],
        forall|a: int, b: int| 0 <= a < b < order@.len()
            ==> rank_key(rows@[order@[a] as int], by_diff) >= rank_key(rows@[order@[b] as int], by_diff),
        forall|a: int, b: int| 0 <= a < b < order@.len()
            && rank_key(rows@[order@[a] as int], by_diff) == rank_key(rows@[order@[b] as int], by_diff)
            ==> order@[a] < order@[b],
        forall|j: usize| j < rows@.len() ==> order@.contains(j),
{
    let mut order: Vec<usize> = Vec::new();
    let mut i: usize = 0;
    while i < rows.len()
        invariant
            i <= rows@.len(),
            order@.len() == i,
            forall|k: int| 0 <= k < order@.len() ==> order@[k] < i,
            forall|a: int, b: int| 0 <= a < b < order@.len() ==> order@[a] != order@[b],
            forall|a: int, b: int| 0 <= a < b < order@.len()
                ==> rank_key(rows@[order@[a] as int], by_diff) >= rank_key(rows@[order@[b] as int], by_diff),
            forall|a: int, b: int| 0 <= a < b < order@.len()
                && rank_key(rows@[order@[a] as int], by_diff) == rank_key(rows@[order@[b] as int], by_diff)
                ==> order@[a] < order@[b],
            forall|j: usize| j < i ==> order@.contains(j),
        decreases rows@.len() - i,
    {
        let ki = rows[i].key(by_diff);
        let mut p: usize = 0;
        while p < order.len() && rows[order[p]].key(by_diff) >= ki
            invariant
                i < rows@.len(),
                p <= order@.len(),
                order@.len() == i,
                forall|k: int| 0 <= k < order@.len() ==> order@[k] < i,
                forall|q: int| 0 <= q < p ==> rank_key(rows@[order@[q] as int], by_diff) >= ki,
            decreases order@.len() - p,
        {
            p += 1;
        }
        let ghost before = order@;
        proof {
            assert forall|q: int| p <= q < before.len() implies rank_key(rows@[before[q] as int], by_diff) < ki by {
                if q > p {
                    assert(rank_key(rows@[before[p as int] as int], by_diff) >= rank_key(rows@[before[q] as int], by_diff));
                }
            }
        }
        order.insert(p, i);
        proof {
            let after = order@;
            assert(after == before.insert(p as int, i));
            assert forall|j: usize| j < i + 1 implies after.contains(j) by {
                if j == i {
                    assert(after[p as int] == j);
                } else {
                    assert(before.contains(j));
                    let k = choose|k: int| 0 <= k < before.len() && before[k] == j;
                    if k < p {
                        assert(after[k] == j);
                    } else {
                        assert(after[k + 1] == j);
                    }
                }
            }
            assert forall|a: int, b: int| 0 <= a < b < after.len()
                && rank_key(rows@[after[a] as int], by_diff) == rank_key(rows@[after[b] as int], by_diff)
                implies after[a] < after[b] by {
                if a < p && b == p {
                    assert(before[a] < i);
                } else if a == p && b > p {
                    assert(rank_key(rows@[before[b - 1] as int], by_diff) < ki);
                } else if a < p && b > p {
                    assert(after[b] == before[b - 1]);
                } else if a > p {
                    assert(after[a] == before[a - 1]);
                }
            }
            assert forall|a: int, b: int| 0 <= a < b < after.len()
                implies rank_key(rows@[after[a] as int], by_diff) >= rank_key(rows@[after[b] as int], by_diff) by {
                if a < p && b == p {
                } else if a == p && b > p {
                    assert(rank_key(rows@[before[b - 1] as int], by_diff) < ki);
                } else if a < p && b > p {
                    assert(after[b] == before[b - 1]);
                } else if a > p {
                    assert(after[a] == before[a - 1]);
                }
            }
        }
        i += 1;
    }
    order
}

impl RankingRepository {
    pub fn new(rows: Vec<RankingRow>) -> (r: RankingRepository)
        ensures
            r.rows == rows,
    {
        RankingRepository { rows }
    }

    /// The first `limit` lines of the leaderboard by the key `by_diff` selects.
    fn leaderboard(&self, limit: u64, by_diff: bool) -> (r: Vec<PointDiffRankingRecord>)
        ensures
            is_leaderboard(self.rows@, by_diff, limit, r@),
    {
        let rows = &self.rows;
        let order = rank_order(rows, by_diff);
        let m: usize = if (limit as u128) < (rows.len() as u128) { limit as usize } else { rows.len() };
        let mut r: Vec<PointDiffRankingRecord> = Vec::new();
        let mut k: usize = 0;
        while k < m
            invariant
                m == capped(limit, rows@.len()),
                k <= m,
                order@.len() == rows@.len(),
                forall|q: int| 0 <= q < order@.len() ==> order@[q] < rows@.len(),
                r@.len() == k,
                forall|q: int| 0 <= q < k ==> r@[q] == record_of(rows@[order@[q] as int]),
            decreases m - k,
        {
            let row = &rows[order[k]];
            let line = PointDiffRankingRecord { user: row.user.duplicate(), current: row.current, diff: row.diff() };
            r.push(line);
            k += 1;
        }
        proof {
            let top = order@.subrange(0, m as int);
            assert forall|j: usize, q: int| j < rows@.len() && !top.contains(j) && 0 <= q < top.len()
                implies #[trigger] rank_key(rows@[j as int], by_diff) <= #[trigger] rank_key(rows@[top[q] as int], by_diff) by {
                assert(order@.contains(j));
                let t = choose|t: int| 0 <= t < order@.len() && order@[t] == j;
                if t < m {
                    assert(top[t] == j);
                }
                assert(top[q] == order@[q]);
            }
            assert(ranks_first(rows@, by_diff, top));
            if m == rows@.len() {
                assert(top =~= order@);
            }
            assert forall|q: int| 0 <= q < r@.len() implies #[trigger] r@[q] == record_of(rows@[top[q] as int]) by {
                assert(top[q] == order@[q]);
            }
        }
        r
    }

    /// The `limit` users with the largest balances, largest first.
    pub fn list_top_points(&self, limit: u64) -> (r: Vec<PointDiffRankingRecord>)
        ensures
            is_leaderboard(self.rows@, false, limit, r@),
    {
        self.leaderboard(limit, false)
    }

    /// The `limit` users whose balances grew the most at their latest change,
    /// largest change first.
    pub fn list_top_point_diffs(&self, limit: u64) -> (r: Vec<PointDiffRankingRecord>)
        ensures
            is_leaderboard(self.rows@, true, limit, r@),
    {
        self.leaderboard(limit, true)
    }
}

/// The key of a leaderboard line: its change when `by_diff`, else its balance.
pub open spec fn record_key(rec: PointDiffRankingRecord, by_diff: bool) -> int {
    if by_diff { rec.diff as int } else { rec.current as int }
}

/// A leaderboard lists its lines by non-increasing key, and a row that it
/// leaves out has a key no larger than any line it shows.
pub proof fn lemma_leaderboard_order(rows: Seq<RankingRow>, by_diff: bool, limit: u64, r: Seq<PointDiffRankingRecord>)
    requires
        is_leaderboard(rows, by_diff, limit, r),
    ensures
        r.len() == capped(limit, rows.len()),
        forall|a: int, b: int| 0 <= a < b < r.len() ==> record_key(r[a], by_diff) >= record_key(r[b], by_diff),
        forall|j: usize, k: int| j < rows.len() && !r.contains(record_of(rows[j as int])) && 0 <= k < r.len()
            ==> #[trigger] rank_key(rows[j as int], by_diff) <= #[trigger] record_key(r[k], by_diff),
{
    let order = choose|order: Seq<usize>|
        #![trigger ranks_first(rows, by_diff, order)]
        ranks_first(rows, by_diff, order) && order.len() == capped(limit, rows.len())
            && r.len() == order.len()
            && (rows.len() <= limit ==> forall|j: usize| j < rows.len() ==> order.contains(j))
            && forall|k: int| #![trigger r[k]] 0 <= k < r.len() ==> r[k] == record_of(rows[order[k] as int]);
    assert forall|a: int, b: int| 0 <= a < b < r.len() implies record_key(r[a], by_diff) >= record_key(r[b], by_diff) by {
        assert(r[a] == record_of(rows[order[a] as int]));
        assert(r[b] == record_of(rows[order[b] as int]));
    }
    assert forall|j: usize, k: int| j < rows.len() && !r.contains(record_of(rows[j as int])) && 0 <= k < r.len()
        implies #[trigger] rank_key(rows[j as int], by_diff) <= #[trigger] record_key(r[k], by_diff) by {
        assert(r[k] == record_of(rows[order[k] as int]));
        if order.contains(j) {
            let t = choose|t: int| 0 <= t < order.len() && order[t] == j;
            assert(r[t] == record_of(rows[j as int]));
        }
    }
}

/// A limit of zero gives an empty leaderboard; a limit at or past the number
/// of rows gives a line for every row.
pub proof fn lemma_leaderboard_limit(rows: Seq<RankingRow>, by_diff: bool, limit: u64, r: Seq<PointDiffRankingRecord>)
    requires
        is_leaderboard(rows, by_diff, limit, r),
    ensures
        limit == 0 ==> r.len() == 0,
        rows.len() <= limit ==> r.len() == rows.len()
            && forall|j: usize| j < rows.len() ==> r.contains(#[trigger] record_of(rows[j as int])),
{
    let order = choose|order: Seq<usize>|
        #![trigger ranks_first(rows, by_diff, order)]
        ranks_first(rows, by_diff, order) && order.len() == capped(limit, rows.len())
            && r.len() == order.len()
            && (rows.len() <= limit ==> forall|j: usize| j < rows.len() ==> order.contains(j))
            && forall|k: int| #![trigger r[k]] 0 <= k < r.len() ==> r[k] == record_of(rows[order[k] as int]);
    if rows.len() <= limit {
        assert forall|j: usize| j < rows.len() implies r.contains(#[trigger] record_of(rows[j as int])) by {
            assert(order.contains(j));
            let t = choose|t: int| 0 <= t < order.len() && order[t] == j;
            assert(r[t] == record_of(rows[j as int]));
        }
    }
}

/// The first of `users` whose identifier is `id`.
pub open spec fn user_with_id(users: Seq<User>, id: Seq<char>) -> Option<User>
    decreases users.len(),
{
    if users.len() == 0 {
        None
    } else if users[0].id@ == id {
        Some(users[0])
    } else {
        user_with_id(users.drop_first(), id)
    }
}

/// The ledger joined with the users on the user identifier, in ledger order;
/// an entry whose user is missing is left out.
pub open spec fn join_rows(ledger: Seq<PointEventRecord>, users: Seq<User>) -> Seq<RankingRow>
    decreases ledger.len(),
{
    if ledger.len() == 0 {
        Seq::empty()
    } else {
        let rest = join_rows(ledger.drop_last(), users);
        let entry = ledger.last();
        match user_with_id(users, entry.user_id@) {
            Some(u) => rest.push(RankingRow { user: u, current: entry.current, previous: entry.previous }),
            None => rest,
        }
    }
}

fn find_user(users: &Vec<User>, id: &String) -> (r: Option<User>)
    ensures
        r == user_with_id(users@, id@),
{
    let mut i: usize = 0;
    assert(users@.subrange(0, users@.len() as int) =~= users@);
    while i < users.len()
        invariant
            i <= users@.len(),
            user_with_id(users@, id@) == user_with_id(users@.subrange(i as int, users@.len() as int), id@),
        decreases users@.len() - i,
    {
        let ghost rest = users@.subrange(i as int, users@.len() as int);
        if users[i].id == *id {
            return Some(users[i].duplicate());
        }
        assert(rest.drop_first() =~= users@.subrange(i + 1, users@.len() as int));
        i += 1;
    }
    None
}

impl RankingRepository {
    /// The rows of `ledger` joined with `users`; see `join_rows`.
    pub fn from_ledger(ledger: &Vec<PointEventRecord>, users: &Vec<User>) -> (r: RankingRepository)
        ensures
            r.rows@ == join_rows(ledger@, users@),
    {
        let mut rows: Vec<RankingRow> = Vec::new();
        let mut i: usize = 0;
        while i < ledger.len()
            invariant
                i <= ledger@.len(),
                rows@ == join_rows(ledger@.subrange(0, i as int), users@),
            decreases ledger@.len() - i,
        {
            let entry = &ledger[i];
            assert(ledger@.subrange(0, i + 1).drop_last() =~= ledger@.subrange(0, i as int));
            match find_user(users, &entry.user_id) {
                Some(user) => {
                    rows.push(RankingRow { user, current: entry.current, previous: entry.previous });
                },
                None => {},
            }
            i += 1;
        }
        assert(ledger@.subrange(0, ledger@.len() as int) =~= ledger@);
        RankingRepository { rows }
    }
}

} // verus!
