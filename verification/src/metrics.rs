//! System metrics arithmetic: network byte totals and the capacity of the
//! primary disk. Reading the counters from the operating system, the CPU
//! load and the per-second rates happen around these functions.

use vstd::prelude::*;

verus! {

/// Capacity of one mounted volume, in bytes.
pub struct DiskSample {
    /// Whether the volume is mounted at `/`.
    pub is_root: bool,
    pub total: u64,
    pub available: u64,
}

/// The counters read from the system at one sample.
pub struct SystemSample {
    /// Memory in use and installed, in bytes.
    pub mem_used: u64,
    pub mem_total: u64,
    /// Bytes received on each network interface since the previous sample.
    pub received: Vec<u64>,
    /// Bytes sent on each network interface since the previous sample.
    pub transmitted: Vec<u64>,
    /// The mounted volumes, in the order the system lists them.
    pub disks: Vec<DiskSample>,
}

/// The integer metrics of one sample.
pub struct MetricCounts {
    pub mem_used: u64,
    pub mem_total: u64,
    /// Bytes in use on the primary volume.
    pub disk_used: u64,
    /// Capacity of the primary volume.
    pub disk_total: u64,
    /// Bytes received over all interfaces since the previous sample.
    pub net_down_bytes: u64,
    /// Bytes sent over all interfaces since the previous sample.
    pub net_up_bytes: u64,
}

/// The sum of a sequence of byte counts.
pub open spec fn byte_sum(s: Seq<u64>) -> nat
    decreases s.len(),
{
    if s.len() == 0 {
        0
    } else {
        byte_sum(s.drop_last()) + s.last() as nat
    }
}

/// The empty sum is zero, and one more count adds exactly that count.
pub proof fn byte_sum_adds(s: Seq<u64>, x: u64)
    ensures
        byte_sum(Seq::<u64>::empty()) == 0,
        byte_sum(s.push(x)) == byte_sum(s) + x,
{
    assert(s.push(x).drop_last() =~= s);
}

/// A prefix never sums to more than the whole sequence.
pub proof fn lemma_byte_sum_prefix(s: Seq<u64>, i: int)
    requires
        0 <= i <= s.len(),
    ensures
        byte_sum(s.take(i)) <= byte_sum(s),
    decreases s.len() - i,
{
    if i < s.len() {
        lemma_byte_sum_prefix(s, i + 1);
        assert(s.take(i + 1).drop_last() =~= s.take(i));
    } else {
        assert(s.take(i) =~= s);
    }
}

/// The total of per-interface byte counts, or `None` when it does not fit
/// in 64 bits.
pub fn network_total(counts: &Vec<u64>) -> (total: Option<u64>)
    ensures
        total is None <==> byte_sum(counts@) > u64::MAX,
        total matches Some(t) ==> t == byte_sum(counts@),
{
    let mut acc: u64 = 0;
    let mut i: usize = 0;
    while i < counts.len()
        invariant
            i <= counts.len(),
            acc == byte_sum(counts@.take(i as int)),
        decreases counts.len() - i,
    {
        proof {
            assert(counts@.take(i + 1).drop_last() =~= counts@.take(i as int));
        }
        match acc.checked_add(counts[i]) {
            Some(next) => {
                acc = next;
            },
            None => {
                proof {
                    lemma_byte_sum_prefix(counts@, i + 1);
                }
                return None;
            },
        }
        i = i + 1;
    }
    proof {
        assert(counts@.take(counts.len() as int) =~= counts@);
    }
    Some(acc)
}

/// `(total, available)` of the last volume mounted at `/`, or `(0, 0)` when
/// none is.
pub open spec fn root_disk(d: Seq<DiskSample>) -> (u64, u64)
    decreases d.len(),
{
    if d.len() == 0 {
        (0, 0)
    } else if d.last().is_root {
        (d.last().total, d.last().available)
    } else {
        root_disk(d.drop_last())
    }
}

/// Scanning the volumes in order from `init`, keep the first volume whose
/// capacity exceeds everything kept before it.
pub open spec fn largest_disk(d: Seq<DiskSample>, init: (u64, u64)) -> (u64, u64)
    decreases d.len(),
{
    if d.len() == 0 {
        init
    } else {
        let kept: (u64, u64) = largest_disk(d.drop_last(), init);
        if d.last().total > kept.0 {
            (d.last().total, d.last().available)
        } else {
            kept
        }
    }
}

/// `(total, available)` of the primary volume: the one mounted at `/`,
/// falling back to the largest when that gives no capacity.
pub open spec fn primary_disk(d: Seq<DiskSample>) -> (u64, u64) {
    let root: (u64, u64) = root_disk(d);
    if root.0 == 0 {
        largest_disk(d, root)
    } else {
        root
    }
}

/// The kept volume is at least as large as the start and as every volume.
pub proof fn lemma_largest_disk_is_largest(d: Seq<DiskSample>, init: (u64, u64))
    ensures
        largest_disk(d, init).0 >= init.0,
        forall|i: int| 0 <= i < d.len() ==> largest_disk(d, init).0 >= #[trigger] d[i].total,
    decreases d.len(),
{
    if d.len() > 0 {
        lemma_largest_disk_is_largest(d.drop_last(), init);
        assert forall|i: int| 0 <= i < d.len() implies largest_disk(d, init).0 >= #[trigger] d[i].total by {
            if i < d.len() - 1 {
                assert(d[i] == d.drop_last()[i]);
            }
        }
    }
}

/// When no volume at `/` reports a capacity, the primary volume is one of
/// largest capacity.
pub proof fn fallback_is_largest(d: Seq<DiskSample>)
    ensures
        root_disk(d).0 == 0 ==> forall|i: int| 0 <= i < d.len() ==> primary_disk(d).0 >= #[trigger] d[i].total,
{
    lemma_largest_disk_is_largest(d, root_disk(d));
}

/// Index `i` is the last volume mounted at `/`.
pub open spec fn last_root_at(d: Seq<DiskSample>, i: int) -> bool {
    &&& 0 <= i < d.len()
    &&& d[i].is_root
    &&& forall|k: int| i < k < d.len() ==> !(#[trigger] d[k]).is_root
}

/// Either no volume is mounted at `/` and nothing is recorded, or the last
/// one mounted there is recorded.
proof fn lemma_root_disk_cases(d: Seq<DiskSample>)
    ensures
        ((forall|k: int| 0 <= k < d.len() ==> !(#[trigger] d[k]).is_root) && root_disk(d) == (0u64, 0u64))
            || (exists|i: int| #[trigger] last_root_at(d, i) && root_disk(d) == (d[i].total, d[i].available)),
    decreases d.len(),
{
    if d.len() > 0 {
        let rest = d.drop_last();
        lemma_root_disk_cases(rest);
        if d.last().is_root {
            assert(last_root_at(d, d.len() - 1));
        } else if exists|i: int| #[trigger] last_root_at(rest, i) && root_disk(rest) == (rest[i].total, rest[i].available) {
            let i = choose|i: int| #[trigger] last_root_at(rest, i) && root_disk(rest) == (rest[i].total, rest[i].available);
            assert(d[i] == rest[i]);
            assert forall|k: int| i < k < d.len() implies !(#[trigger] d[k]).is_root by {
                if k < d.len() - 1 {
                    assert(d[k] == rest[k]);
                }
            }
            assert(last_root_at(d, i));
        } else {
            assert forall|k: int| 0 <= k < d.len() implies !(#[trigger] d[k]).is_root by {
                if k < d.len() - 1 {
                    assert(d[k] == rest[k]);
                }
            }
        }
    }
}

/// Scanning for the largest volume either keeps the start (nothing is
/// larger) or ends on the first volume of largest capacity, which exceeds
/// the start.
proof fn lemma_largest_disk_pick(d: Seq<DiskSample>, init: (u64, u64))
    ensures
        ({
            let r = largest_disk(d, init);
            ||| r == init && forall|k: int| 0 <= k < d.len() ==> (#[trigger] d[k]).total <= init.0
            ||| exists|k: int|
                #![trigger d[k]]
                0 <= k < d.len() && r == (d[k].total, d[k].available) && d[k].total > init.0
                    && (forall|m: int| 0 <= m < k ==> (#[trigger] d[m]).total < d[k].total)
                    && (forall|m: int| 0 <= m < d.len() ==> (#[trigger] d[m]).total <= d[k].total)
        }),
    decreases d.len(),
{
    if d.len() > 0 {
        let rest = d.drop_last();
        lemma_largest_disk_pick(rest, init);
        lemma_largest_disk_is_largest(rest, init);
        let r0 = largest_disk(rest, init);
        let n = d.len() - 1;
        assert forall|m: int| 0 <= m < n implies (#[trigger] d[m]).total <= r0.0 by {
            assert(d[m] == rest[m]);
        }
        if d.last().total > r0.0 {
            assert(d[n] == d.last());
        } else if r0 == init && forall|k: int| 0 <= k < rest.len() ==> (#[trigger] rest[k]).total <= init.0 {
        } else {
            let k = choose|k: int|
                #![trigger rest[k]]
                0 <= k < rest.len() && r0 == (rest[k].total, rest[k].available) && rest[k].total > init.0
                    && (forall|m: int| 0 <= m < k ==> (#[trigger] rest[m]).total < rest[k].total)
                    && (forall|m: int| 0 <= m < rest.len() ==> (#[trigger] rest[m]).total <= rest[k].total);
            assert(d[k] == rest[k]);
            assert forall|m: int| 0 <= m < k implies (#[trigger] d[m]).total < d[k].total by {
                assert(d[m] == rest[m]);
            }
            assert forall|m: int| 0 <= m < d.len() implies (#[trigger] d[m]).total <= d[k].total by {
                if m < n {
                    assert(d[m] == rest[m]);
                }
            }
        }
    }
}

/// The volume mounted at `/` is the primary one whenever it reports a
/// capacity, whatever the sizes of the other volumes (when several are
/// mounted there, the last one listed counts).
pub proof fn root_volume_is_primary(d: Seq<DiskSample>, i: int)
    requires
        last_root_at(d, i),
        d[i].total != 0,
    ensures
        primary_disk(d) == (d[i].total, d[i].available),
{
    lemma_root_disk_cases(d);
    if exists|j: int| #[trigger] last_root_at(d, j) && root_disk(d) == (d[j].total, d[j].available) {
        let j = choose|j: int| #[trigger] last_root_at(d, j) && root_disk(d) == (d[j].total, d[j].available);
        if j < i {
            assert(!d[i].is_root);
        }
        if i < j {
            assert(!d[j].is_root);
        }
    } else {
        assert(!d[i].is_root);
    }
}

/// When no volume at `/` reports a capacity, the primary volume is the first
/// of the largest capacity; when no volume has any capacity, it reports
/// capacity zero and the space available on the volume at `/` (zero when
/// there is none).
pub proof fn largest_volume_is_primary(d: Seq<DiskSample>)
    requires
        forall|i: int| #[trigger] last_root_at(d, i) ==> d[i].total == 0,
    ensures
        forall|k: int| 0 <= k < d.len() ==> primary_disk(d).0 >= (#[trigger] d[k]).total,
        primary_disk(d).0 > 0 ==> exists|k: int|
            #![trigger d[k]]
            0 <= k < d.len() && primary_disk(d) == (d[k].total, d[k].available) && forall|m: int|
                0 <= m < k ==> (#[trigger] d[m]).total < d[k].total,
        primary_disk(d).0 == 0 ==> (forall|i: int| #[trigger] last_root_at(d, i) ==> primary_disk(d).1
            == d[i].available),
        (primary_disk(d).0 == 0 && forall|k: int| 0 <= k < d.len() ==> !(#[trigger] d[k]).is_root)
            ==> primary_disk(d).1 == 0,
{
    lemma_root_disk_cases(d);
    let root = root_disk(d);
    assert(root.0 == 0);
    lemma_largest_disk_pick(d, root);
    lemma_largest_disk_is_largest(d, root);
    if exists|j: int| #[trigger] last_root_at(d, j) && root_disk(d) == (d[j].total, d[j].available) {
        let j = choose|j: int| #[trigger] last_root_at(d, j) && root_disk(d) == (d[j].total, d[j].available);
        assert forall|i: int| #[trigger] last_root_at(d, i) implies i == j by {
            if j < i {
                assert(!d[i].is_root);
            }
            if i < j {
                assert(!d[j].is_root);
            }
        }
        assert(d[j].is_root);
    }
}

/// `(total, available)` of the primary volume.
pub fn primary_disk_space(disks: &Vec<DiskSample>) -> (space: (u64, u64))
    ensures
        space == primary_disk(disks@),
{
    let mut total: u64 = 0;
    let mut avail: u64 = 0;
    let mut i: usize = 0;
    while i < disks.len()
        invariant
            i <= disks.len(),
            (total, avail) == root_disk(disks@.take(i as int)),
        decreases disks.len() - i,
    {
        proof {
            assert(disks@.take(i + 1).drop_last() =~= disks@.take(i as int));
        }
        if disks[i].is_root {
            total = disks[i].total;
            avail = disks[i].available;
        }
        i = i + 1;
    }
    proof {
        assert(disks@.take(disks.len() as int) =~= disks@);
    }
    if total == 0 {
        let ghost root = (total, avail);
        let mut j: usize = 0;
        while j < disks.len()
            invariant
                j <= disks.len(),
                (total, avail) == largest_disk(disks@.take(j as int), root),
            decreases disks.len() - j,
        {
            proof {
                assert(disks@.take(j + 1).drop_last() =~= disks@.take(j as int));
            }
            if disks[j].total > total {
                total = disks[j].total;
                avail = disks[j].available;
            }
            j = j + 1;
        }
        proof {
            assert(disks@.take(disks.len() as int) =~= disks@);
        }
    }
    (total, avail)
}

/// Bytes in use: capacity minus available space, or zero when the system
/// reports more available than total.
pub open spec fn used_space(total: u64, available: u64) -> u64 {
    if total >= available {
        (total - available) as u64
    } else {
        0
    }
}

/// Used space and available space make up the capacity; when the system
/// reports more available than total, nothing counts as used.
pub proof fn used_plus_available(total: u64, available: u64)
    ensures
        available <= total ==> used_space(total, available) + available == total,
        available > total ==> used_space(total, available) == 0,
{
}

/// The integer metrics of a sample: memory as read, the primary volume's
/// capacity and use, and the network totals; `None` when a network total
/// does not fit in 64 bits.
pub fn get_metrics(sample: &SystemSample) -> (counts: Option<MetricCounts>)
    ensures
        counts is None <==> (byte_sum(sample.received@) > u64::MAX || byte_sum(sample.transmitted@)
            > u64::MAX),
        counts matches Some(c) ==> {
            &&& c.mem_used == sample.mem_used
            &&& c.mem_total == sample.mem_total
            &&& c.disk_total == primary_disk(sample.disks@).0
            &&& c.disk_used == used_space(primary_disk(sample.disks@).0, primary_disk(sample.disks@).1)
            &&& c.disk_used <= c.disk_total
            &&& c.net_down_bytes == byte_sum(sample.received@)
            &&& c.net_up_bytes == byte_sum(sample.transmitted@)
        },
{
    let down = network_total(&sample.received);
    let up = network_total(&sample.transmitted);
    let (disk_total, disk_avail): (u64, u64) = primary_disk_space(&sample.disks);
    let disk_used: u64 = disk_total.saturating_sub(disk_avail);
    match (down, up) {
        (Some(net_down_bytes), Some(net_up_bytes)) => Some(MetricCounts {
            mem_used: sample.mem_used,
            mem_total: sample.mem_total,
            disk_used,
            disk_total,
            net_down_bytes,
            net_up_bytes,
        }),
        _ => None,
    }
}

} // verus!
