use crate::audit::{AuditEntry, AuditEntryModel};
use crate::database::append_log;
use crate::table::{models, Record};
use crate::text::opt_text_is;
use vstd::prelude::*;

verus! {

/// A request to read the audit log.
#[derive(Debug, Clone, Copy, PartialEq, Eq, Structural)]
pub struct AuditQuery {
    pub limit: Option<usize>,
    pub before_epoch_millis: Option<u64>,
}

/// The number of entries that a query gets at most: 50 unless it says otherwise, and 1 to 200.
pub open spec fn query_limit(query: AuditQuery) -> nat {
    match query.limit {
        Some(limit) => if limit < 1 {
            1
        } else if limit > 200 {
            200
        } else {
            limit as nat
        },
        None => 50,
    }
}

/// The time before which a query wants entries.
pub open spec fn query_before(query: AuditQuery) -> u64 {
    match query.before_epoch_millis {
        Some(before) => before,
        None => u64::MAX,
    }
}

/// Whether an entry is one of an account from before a time.
pub open spec fn entry_wanted(
    entry: AuditEntryModel,
    account_id: Seq<char>,
    before: u64,
) -> bool {
    entry.actor_account_id == Some(account_id) && entry.created_at_epoch_millis < before
}

/// The newest entries of an account from before a time, newest first and no more than a limit,
/// among the first entries of a log.
pub open spec fn newest_entries(
    log: Seq<AuditEntryModel>,
    count: nat,
    account_id: Seq<char>,
    before: u64,
    limit: nat,
) -> Seq<AuditEntryModel>
    decreases count,
{
    if count == 0 || limit == 0 {
        Seq::empty()
    } else if entry_wanted(log[count - 1], account_id, before) {
        seq![log[count - 1]] + newest_entries(
            log,
            (count - 1) as nat,
            account_id,
            before,
            (limit - 1) as nat,
        )
    } else {
        newest_entries(log, (count - 1) as nat, account_id, before, limit)
    }
}

/// The entries of an account that a query wants, newest first.
pub fn list_audit_logs(log: &Vec<AuditEntry>, account_id: &str, query: &AuditQuery) -> (entries: Vec<
    AuditEntry,
>)
    ensures
        models(entries@) == newest_entries(
            models(log@),
            log@.len(),
            account_id@,
            query_before(*query),
            query_limit(*query),
        ),
{
    let limit: usize = match query.limit {
        Some(limit) => if limit < 1 {
            1
        } else if limit > 200 {
            200
        } else {
            limit
        },
        None => 50,
    };
    let before: u64 = match query.before_epoch_millis {
        Some(before) => before,
        None => u64::MAX,
    };
    let ghost all = models(log@);
    let ghost wanted = newest_entries(all, log@.len(), account_id@, before, limit as nat);
    let mut entries: Vec<AuditEntry> = Vec::new();
    let mut count: usize = log.len();
    assert(models(entries@) =~= Seq::empty());
    assert(models(entries@) + wanted =~= wanted);
    while count > 0 && entries.len() < limit
        invariant
            count <= log.len(),
            entries.len() <= limit,
            all == models(log@),
            models(entries@) + newest_entries(
                all,
                count as nat,
                account_id@,
                before,
                (limit - entries.len()) as nat,
            ) == wanted,
        decreases count,
    {
        let entry = &log[count - 1];
        let ghost rest = newest_entries(
            all,
            (count - 1) as nat,
            account_id@,
            before,
            (limit - entries.len() - 1) as nat,
        );
        let ghost taken = models(entries@);
        assert(all[count - 1] == entry@);
        if opt_text_is(&entry.actor_account_id, account_id) && entry.created_at_epoch_millis
            < before {
            append_log(&mut entries, entry.duplicate());
            assert(taken.push(entry@) + rest =~= taken + (seq![entry@] + rest));
        }
        count = count - 1;
    }
    assert(models(entries@) + Seq::<AuditEntryModel>::empty() =~= models(entries@));
    entries
}

/// A page of the audit log holds no more than its limit, and nothing but wanted entries of the log,
/// each from further back than the one before it.
pub proof fn pages_are_bounded_and_newest_first(
    log: Seq<AuditEntryModel>,
    count: nat,
    account_id: Seq<char>,
    before: u64,
    limit: nat,
)
    requires
        count <= log.len(),
    ensures
        newest_entries(log, count, account_id, before, limit).len() <= limit,
        forall|i: int|
            0 <= i < newest_entries(log, count, account_id, before, limit).len() ==> entry_wanted(
                #[trigger] newest_entries(log, count, account_id, before, limit)[i],
                account_id,
                before,
            ),
        exists|positions: Seq<int>| #[trigger]
            descends(positions, count as int) && newest_entries(
                log,
                count,
                account_id,
                before,
                limit,
            ) == positions.map_values(|at: int| log[at]),
    decreases count,
{
    let page = newest_entries(log, count, account_id, before, limit);
    if count == 0 || limit == 0 {
        let none = Seq::<int>::empty();
        assert(descends(none, count as int));
        assert(page =~= none.map_values(|at: int| log[at]));
    } else if entry_wanted(log[count - 1], account_id, before) {
        pages_are_bounded_and_newest_first(
            log,
            (count - 1) as nat,
            account_id,
            before,
            (limit - 1) as nat,
        );
        let rest = newest_entries(
            log,
            (count - 1) as nat,
            account_id,
            before,
            (limit - 1) as nat,
        );
        let positions = choose|positions: Seq<int>| #[trigger]
            descends(positions, count - 1) && rest == positions.map_values(|at: int| log[at]);
        let longer = seq![count - 1] + positions;
        assert forall|i: int, j: int| 0 <= i < j < longer.len() implies #[trigger] longer[i]
            > #[trigger] longer[j] by {
            if i == 0 {
                assert(longer[j] == positions[j - 1]);
            } else {
                assert(longer[i] == positions[i - 1]);
                assert(longer[j] == positions[j - 1]);
            }
        }
        assert forall|i: int| 0 <= i < longer.len() implies 0 <= #[trigger] longer[i] < count by {
            if i > 0 {
                assert(longer[i] == positions[i - 1]);
            }
        }
        assert(descends(longer, count as int));
        assert(page =~= longer.map_values(|at: int| log[at]));
        assert forall|i: int| 0 <= i < page.len() implies entry_wanted(
            #[trigger] page[i],
            account_id,
            before,
        ) by {
            if i > 0 {
                assert(page[i] == rest[i - 1]);
            }
        }
    } else {
        pages_are_bounded_and_newest_first(log, (count - 1) as nat, account_id, before, limit);
        let positions = choose|positions: Seq<int>| #[trigger]
            descends(positions, count - 1) && page == positions.map_values(|at: int| log[at]);
        assert(descends(positions, count as int));
    }
}

/// Positions below a bound, each lower than the one before it.
pub open spec fn descends(positions: Seq<int>, bound: int) -> bool {
    &&& forall|i: int| 0 <= i < positions.len() ==> 0 <= #[trigger] positions[i] < bound
    &&& forall|i: int, j: int|
        0 <= i < j < positions.len() ==> #[trigger] positions[i] > #[trigger] positions[j]
}

} // verus!
