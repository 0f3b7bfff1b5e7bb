//! Selection of the device to sample.
//!
//! A device qualifies when it is no trigger, carries an accelerometer channel
//! for each axis, all three of them scan elements, and supports buffered
//! acquisition. Among the qualifying devices one with gyroscope and timestamp
//! is preferred to one with gyroscope only, and that to one with an
//! accelerometer alone; among equals the first in the list wins.

use crate::error::{Error, ErrorView};
use crate::iio::types::{AxisSet, ChannelInfo, DeviceInfo, DiscoveredDevice};
use crate::text::{has_prefix, str_eq, strip_prefix};
use vstd::prelude::*;

verus! {

/// The axis that a channel identifier's ending names: 0, 1 or 2 for `_x`,
/// `_y` and `_z`.
pub open spec fn axis_of_suffix(suffix: Seq<char>) -> Option<usize> {
    if suffix == "_x"@ {
        Some(0usize)
    } else if suffix == "_y"@ {
        Some(1usize)
    } else if suffix == "_z"@ {
        Some(2usize)
    } else {
        None
    }
}

/// The axis of the channel `id`: the first of `prefixes` that `id` starts
/// with decides, by what follows it.
pub open spec fn axis_of_id(id: Seq<char>, prefixes: Seq<Seq<char>>) -> Option<usize>
    decreases prefixes.len(),
{
    if prefixes.len() == 0 {
        None
    } else if has_prefix(id, prefixes[0]) {
        axis_of_suffix(id.subrange(prefixes[0].len() as int, id.len() as int))
    } else {
        axis_of_id(id, prefixes.drop_first())
    }
}

/// The characters of each string of a list.
pub open spec fn str_views(strs: Seq<&str>) -> Seq<Seq<char>> {
    strs.map_values(|s: &str| s@)
}

/// An axis is one of 0, 1 and 2.
pub proof fn lemma_axis_in_range(id: Seq<char>, prefixes: Seq<Seq<char>>)
    ensures
        axis_of_id(id, prefixes) matches Some(a) ==> a < 3,
    decreases prefixes.len(),
{
    if prefixes.len() > 0 && !has_prefix(id, prefixes[0]) {
        lemma_axis_in_range(id, prefixes.drop_first());
    }
}

fn axis_from_suffix(suffix: &str) -> (axis: Option<usize>)
    ensures
        axis == axis_of_suffix(suffix@),
{
    if str_eq(suffix, "_x") {
        Some(0)
    } else if str_eq(suffix, "_y") {
        Some(1)
    } else if str_eq(suffix, "_z") {
        Some(2)
    } else {
        None
    }
}

/// The axis that the channel identifier `id` names, given the prefixes under
/// which a sensor's channels go.
pub fn axis_from_id(id: &str, prefixes: &[&str]) -> (axis: Option<usize>)
    ensures
        axis == axis_of_id(id@, str_views(prefixes@)),
{
    let ghost views = str_views(prefixes@);
    let mut i: usize = 0;
    assert(views.subrange(0, views.len() as int) == views);
    while i < prefixes.len()
        invariant
            i <= prefixes.len(),
            views == str_views(prefixes@),
            axis_of_id(id@, views) == axis_of_id(id@, views.subrange(i as int, views.len() as int)),
        decreases prefixes.len() - i,
    {
        let ghost rest = views.subrange(i as int, views.len() as int);
        assert(rest[0] == prefixes@[i as int]@);
        assert(rest.drop_first() == views.subrange(i + 1, views.len() as int));
        match strip_prefix(id, prefixes[i]) {
            Some(suffix) => {
                return axis_from_suffix(suffix);
            },
            None => {},
        }
        i += 1;
    }
    assert(views.subrange(i as int, views.len() as int).len() == 0);
    None
}

/// Whether a channel is one for `axis` of the sensor that `prefixes` name.
pub open spec fn is_candidate(ch: ChannelInfo, prefixes: Seq<Seq<char>>, axis: usize) -> bool {
    ch.is_input && ch.id is Some && axis_of_id(ch.id->0@, prefixes) == Some(axis)
}

/// Whether, looking at the first `n` channels only, channel `i` is the one
/// to use for `axis`: the first candidate that is a scan element, or the
/// first candidate where none is a scan element.
pub open spec fn is_axis_pick_upto(
    channels: Seq<ChannelInfo>,
    prefixes: Seq<Seq<char>>,
    axis: usize,
    n: int,
    i: int,
) -> bool {
    &&& 0 <= i < n <= channels.len()
    &&& is_candidate(channels[i], prefixes, axis)
    &&& forall|j: int|
        0 <= j < i && is_candidate(#[trigger] channels[j], prefixes, axis) ==> !channels[j].is_scan_element
            && channels[i].is_scan_element
    &&& !channels[i].is_scan_element ==> forall|j: int|
        0 <= j < n && is_candidate(#[trigger] channels[j], prefixes, axis)
            ==> !channels[j].is_scan_element
}

/// Whether channel `i` is the one to use for `axis`.
pub open spec fn is_axis_pick(
    channels: Seq<ChannelInfo>,
    prefixes: Seq<Seq<char>>,
    axis: usize,
    i: int,
) -> bool {
    is_axis_pick_upto(channels, prefixes, axis, channels.len() as int, i)
}

/// At most one channel is the one to use for an axis.
pub proof fn lemma_axis_pick_unique(
    channels: Seq<ChannelInfo>,
    prefixes: Seq<Seq<char>>,
    axis: usize,
    i: int,
    k: int,
)
    requires
        is_axis_pick(channels, prefixes, axis, i),
        is_axis_pick(channels, prefixes, axis, k),
    ensures
        i == k,
{
    if i < k {
        assert(is_candidate(channels[i], prefixes, axis));
        assert(is_candidate(channels[k], prefixes, axis));
    } else if k < i {
        assert(is_candidate(channels[k], prefixes, axis));
        assert(is_candidate(channels[i], prefixes, axis));
    }
}

/// The channel to use for `axis`, where the device has one.
pub open spec fn axis_pick(channels: Seq<ChannelInfo>, prefixes: Seq<Seq<char>>, axis: usize)
    -> Option<usize> {
    if exists|i: int| is_axis_pick(channels, prefixes, axis, i) {
        Some((choose|i: int| is_axis_pick(channels, prefixes, axis, i)) as usize)
    } else {
        None
    }
}

/// The channels of the sensor that `prefixes` name, where the device has one
/// for each axis.
pub open spec fn axis_channels(channels: Seq<ChannelInfo>, prefixes: Seq<Seq<char>>) -> Option<
    AxisSet<usize>,
> {
    match (
        axis_pick(channels, prefixes, 0),
        axis_pick(channels, prefixes, 1),
        axis_pick(channels, prefixes, 2),
    ) {
        (Some(x), Some(y), Some(z)) => Some(AxisSet { x, y, z }),
        _ => None,
    }
}

/// What the scan over the first `n` channels holds for one axis.
spec fn scan_state(
    channels: Seq<ChannelInfo>,
    prefixes: Seq<Seq<char>>,
    axis: usize,
    n: int,
    cur: Option<usize>,
) -> bool {
    match cur {
        Some(i) => is_axis_pick_upto(channels, prefixes, axis, n, i as int),
        None => forall|j: int| 0 <= j < n ==> !is_candidate(#[trigger] channels[j], prefixes, axis),
    }
}

proof fn lemma_scan_done(
    channels: Seq<ChannelInfo>,
    prefixes: Seq<Seq<char>>,
    axis: usize,
    cur: Option<usize>,
)
    requires
        scan_state(channels, prefixes, axis, channels.len() as int, cur),
        channels.len() <= usize::MAX,
    ensures
        axis_pick(channels, prefixes, axis) == cur,
{
    match cur {
        Some(i) => {
            assert(is_axis_pick(channels, prefixes, axis, i as int));
            let k = choose|k: int| is_axis_pick(channels, prefixes, axis, k);
            lemma_axis_pick_unique(channels, prefixes, axis, i as int, k);
        },
        None => {
            assert forall|k: int| !is_axis_pick(channels, prefixes, axis, k) by {
                if 0 <= k < channels.len() {
                    assert(!is_candidate(channels[k], prefixes, axis));
                }
            }
        },
    }
}

/// The step of the scan for one axis: `cur` after channel `n` was seen.
fn scan_step(
    channels: &Vec<ChannelInfo>,
    Ghost(prefixes): Ghost<Seq<Seq<char>>>,
    Ghost(axis): Ghost<usize>,
    n: usize,
    cur: Option<usize>,
) -> (next: Option<usize>)
    requires
        n < channels.len(),
        is_candidate(channels@[n as int], prefixes, axis),
        scan_state(channels@, prefixes, axis, n as int, cur),
    ensures
        scan_state(channels@, prefixes, axis, n + 1, next),
{
    match cur {
        None => Some(n),
        Some(prev) => {
            if channels[n].is_scan_element && !channels[prev].is_scan_element {
                Some(n)
            } else {
                Some(prev)
            }
        },
    }
}

/// The channels of one sensor of a device: for each axis the channel to
/// use, or `None` where an axis has no channel.
pub fn find_axis_channels(dev: &DeviceInfo, prefixes: &[&str]) -> (found: Option<AxisSet<usize>>)
    ensures
        found == axis_channels(dev.channels@, str_views(prefixes@)),
{
    let ghost views = str_views(prefixes@);
    let ghost chs = dev.channels@;
    let mut x: Option<usize> = None;
    let mut y: Option<usize> = None;
    let mut z: Option<usize> = None;
    let mut n: usize = 0;
    while n < dev.channels.len()
        invariant
            n <= dev.channels.len(),
            chs == dev.channels@,
            views == str_views(prefixes@),
            scan_state(chs, views, 0, n as int, x),
            scan_state(chs, views, 1, n as int, y),
            scan_state(chs, views, 2, n as int, z),
        decreases dev.channels.len() - n,
    {
        let ch = &dev.channels[n];
        let axis = if ch.is_input {
            match &ch.id {
                Some(id) => axis_from_id(id.as_str(), prefixes),
                None => None,
            }
        } else {
            None
        };
        proof {
            if ch.id is Some {
                lemma_axis_in_range(ch.id->0@, views);
            }
            assert(forall|a: usize| is_candidate(chs[n as int], views, a) <==> axis == Some(a));
        }
        match axis {
            Some(0) => {
                x = scan_step(&dev.channels, Ghost(views), Ghost(0), n, x);
            },
            Some(1) => {
                y = scan_step(&dev.channels, Ghost(views), Ghost(1), n, y);
            },
            Some(2) => {
                z = scan_step(&dev.channels, Ghost(views), Ghost(2), n, z);
            },
            _ => {},
        }
        n += 1;
    }
    proof {
        lemma_scan_done(chs, views, 0, x);
        lemma_scan_done(chs, views, 1, y);
        lemma_scan_done(chs, views, 2, z);
    }
    match (x, y, z) {
        (Some(x), Some(y), Some(z)) => Some(AxisSet { x, y, z }),
        _ => None,
    }
}

/// The prefixes under which accelerometer channels go.
pub open spec fn accel_prefixes() -> Seq<Seq<char>> {
    seq!["accel"@, "in_accel"@]
}

/// The prefixes under which gyroscope channels go.
pub open spec fn gyro_prefixes() -> Seq<Seq<char>> {
    seq!["anglvel"@, "in_anglvel"@]
}

/// Whether the three channels of `set` exist and are scan elements.
pub open spec fn all_scan_elements(channels: Seq<ChannelInfo>, set: AxisSet<usize>) -> bool {
    &&& set.x < channels.len() && channels[set.x as int].is_scan_element
    &&& set.y < channels.len() && channels[set.y as int].is_scan_element
    &&& set.z < channels.len() && channels[set.z as int].is_scan_element
}

/// Whether a device carries an accelerometer that cannot be sampled: one
/// of its channels is no scan element, or the device has no buffer.
pub open spec fn lacks_capability(dev: DeviceInfo) -> bool {
    &&& !dev.is_trigger
    &&& axis_channels(dev.channels@, accel_prefixes()) matches Some(accel)
    &&& !all_scan_elements(dev.channels@, accel) || !dev.is_buffer_capable
}

/// How much a device offers: 0 where it does not qualify, 1 with an
/// accelerometer alone, 2 with a gyroscope too, 3 with gyroscope and
/// timestamp.
pub open spec fn rank_of(dev: DeviceInfo) -> nat {
    if dev.is_trigger {
        0
    } else {
        match axis_channels(dev.channels@, accel_prefixes()) {
            None => 0,
            Some(accel) => {
                if !all_scan_elements(dev.channels@, accel) || !dev.is_buffer_capable {
                    0
                } else if axis_channels(dev.channels@, gyro_prefixes()) is None {
                    1
                } else if dev.timestamp is None {
                    2
                } else {
                    3
                }
            },
        }
    }
}

/// The selection's result for the device at `index`, where it qualifies.
pub open spec fn candidate_of(dev: DeviceInfo, index: usize) -> DiscoveredDevice {
    DiscoveredDevice {
        dev: index,
        accel: axis_channels(dev.channels@, accel_prefixes())->0,
        gyro: axis_channels(dev.channels@, gyro_prefixes()),
        timestamp: dev.timestamp,
    }
}

/// Whether the device at `i` is the one to select: it qualifies, no device
/// offers more, and none before it offers as much.
pub open spec fn is_best(devices: Seq<DeviceInfo>, i: int) -> bool {
    &&& 0 <= i < devices.len()
    &&& rank_of(devices[i]) > 0
    &&& forall|j: int| 0 <= j < devices.len() ==> rank_of(#[trigger] devices[j]) <= rank_of(devices[i])
    &&& forall|j: int| 0 <= j < i ==> rank_of(#[trigger] devices[j]) < rank_of(devices[i])
}

/// The message for an accelerometer that cannot be sampled.
pub open spec fn unavailable_message() -> Seq<char> {
    "accel device found, but scan-elements/buffer are not available"@
}

/// What the selection returns where no device qualifies.
pub open spec fn selection_failure(devices: Seq<DeviceInfo>) -> ErrorView {
    if exists|j: int| 0 <= j < devices.len() && lacks_capability(#[trigger] devices[j]) {
        ErrorView::InvalidState(unavailable_message())
    } else {
        ErrorView::SensorNotFound
    }
}

/// What the first `n` devices hold for one rank below the highest: the
/// first device of that rank, or that there is none.
spec fn first_of_rank(devices: Seq<DeviceInfo>, rank: nat, n: int, cur: Option<DiscoveredDevice>) -> bool {
    match cur {
        Some(d) => {
            &&& d.dev < n
            &&& rank_of(devices[d.dev as int]) == rank
            &&& d == candidate_of(devices[d.dev as int], d.dev)
            &&& forall|j: int| 0 <= j < d.dev ==> rank_of(#[trigger] devices[j]) != rank
        },
        None => forall|j: int| 0 <= j < n ==> rank_of(#[trigger] devices[j]) != rank,
    }
}

fn accel_all_scan(dev: &DeviceInfo, accel: &AxisSet<usize>) -> (all: bool)
    ensures
        all == all_scan_elements(dev.channels@, *accel),
{
    accel.x < dev.channels.len() && dev.channels[accel.x].is_scan_element && accel.y
        < dev.channels.len() && dev.channels[accel.y].is_scan_element && accel.z
        < dev.channels.len() && dev.channels[accel.z].is_scan_element
}

/// Selects the device to sample from the list of all devices.
///
/// Returns the first device among those that offer most. Where no device
/// qualifies, the error tells whether an accelerometer was seen that cannot
/// be sampled, or none at all.
pub fn discover_best_device(devices: &Vec<DeviceInfo>) -> (found: Result<DiscoveredDevice, Error>)
    ensures
        match found {
            Ok(d) => is_best(devices@, d.dev as int) && d == candidate_of(
                devices@[d.dev as int],
                d.dev,
            ),
            Err(e) => e@ == selection_failure(devices@) && forall|j: int|
                0 <= j < devices.len() ==> rank_of(#[trigger] devices@[j]) == 0,
        },
{
    let accel_names: [&str; 2] = ["accel", "in_accel"];
    let gyro_names: [&str; 2] = ["anglvel", "in_anglvel"];
    assert(str_views(accel_names@) == accel_prefixes());
    assert(str_views(gyro_names@) == gyro_prefixes());
    let mut best_accel_only: Option<DiscoveredDevice> = None;
    let mut best_with_gyro: Option<DiscoveredDevice> = None;
    let mut saw_unavailable = false;
    let mut i: usize = 0;
    while i < devices.len()
        invariant
            i <= devices.len(),
            str_views(accel_names@) == accel_prefixes(),
            str_views(gyro_names@) == gyro_prefixes(),
            forall|j: int| 0 <= j < i ==> rank_of(#[trigger] devices@[j]) <= 2,
            first_of_rank(devices@, 2, i as int, best_with_gyro),
            first_of_rank(devices@, 1, i as int, best_accel_only),
            saw_unavailable <==> exists|j: int| 0 <= j < i && lacks_capability(#[trigger] devices@[j]),
        decreases devices.len() - i,
    {
        let dev = &devices[i];
        let ghost before = saw_unavailable;
        if !dev.is_trigger {
            match find_axis_channels(dev, accel_names.as_slice()) {
                None => {},
                Some(accel) => {
                    if !accel_all_scan(dev, &accel) || !dev.is_buffer_capable {
                        saw_unavailable = true;
                    } else {
                        let gyro = find_axis_channels(dev, gyro_names.as_slice());
                        let has_gyro = gyro.is_some();
                        let has_timestamp = dev.timestamp.is_some();
                        let candidate = DiscoveredDevice {
                            dev: i,
                            accel,
                            gyro,
                            timestamp: dev.timestamp,
                        };
                        if has_gyro && has_timestamp {
                            return Ok(candidate);
                        } else if has_gyro {
                            if best_with_gyro.is_none() {
                                best_with_gyro = Some(candidate);
                            }
                        } else {
                            if best_accel_only.is_none() {
                                best_accel_only = Some(candidate);
                            }
                        }
                    }
                },
            }
        }
        proof {
            assert(saw_unavailable <==> before || lacks_capability(devices@[i as int]));
            if saw_unavailable {
                if before {
                    let j = choose|j: int| 0 <= j < i && lacks_capability(#[trigger] devices@[j]);
                    assert(0 <= j < i + 1 && lacks_capability(devices@[j]));
                } else {
                    assert(0 <= i < i + 1 && lacks_capability(devices@[i as int]));
                }
            }
        }
        i += 1;
    }
    match best_with_gyro {
        Some(d) => Ok(d),
        None => match best_accel_only {
            Some(d) => Ok(d),
            None => {
                if saw_unavailable {
                    Err(
                        Error::invalid_state(
                            "accel device found, but scan-elements/buffer are not available",
                        ),
                    )
                } else {
                    Err(Error::SensorNotFound)
                }
            },
        },
    }
}

/// The selection is determined by the list: at most one device is the one
/// to select.
pub proof fn lemma_selection_unique(devices: Seq<DeviceInfo>, i: int, k: int)
    requires
        is_best(devices, i),
        is_best(devices, k),
    ensures
        i == k,
{
    if i < k {
        assert(rank_of(devices[i]) < rank_of(devices[k]));
        assert(rank_of(devices[k]) <= rank_of(devices[i]));
    } else if k < i {
        assert(rank_of(devices[k]) < rank_of(devices[i]));
        assert(rank_of(devices[i]) <= rank_of(devices[k]));
    }
}

/// The selected device offers at least as much as any other device of the
/// list, wherever that one stands: gyroscope and timestamp win over a
/// gyroscope alone, and a gyroscope wins over an accelerometer alone.
pub proof fn lemma_selection_prefers_rank(devices: Seq<DeviceInfo>, chosen: int, other: int)
    requires
        is_best(devices, chosen),
        0 <= other < devices.len(),
    ensures
        rank_of(devices[other]) <= rank_of(devices[chosen]),
{
}

/// Whether, looking at the first `n` devices only, the device at `i` is the
/// one to select.
spec fn is_best_upto(devices: Seq<DeviceInfo>, n: int, i: int) -> bool {
    &&& 0 <= i < n <= devices.len()
    &&& rank_of(devices[i]) > 0
    &&& forall|j: int| 0 <= j < n ==> rank_of(#[trigger] devices[j]) <= rank_of(devices[i])
    &&& forall|j: int| 0 <= j < i ==> rank_of(#[trigger] devices[j]) < rank_of(devices[i])
}

proof fn lemma_best_exists_upto(devices: Seq<DeviceInfo>, n: int) -> (i: int)
    requires
        0 <= n <= devices.len(),
        exists|j: int| 0 <= j < n && rank_of(#[trigger] devices[j]) > 0,
    ensures
        is_best_upto(devices, n, i),
    decreases n,
{
    let last = n - 1;
    if exists|j: int| 0 <= j < last && rank_of(#[trigger] devices[j]) > 0 {
        let before = lemma_best_exists_upto(devices, last);
        if rank_of(devices[last]) > rank_of(devices[before]) {
            last
        } else {
            before
        }
    } else {
        let j = choose|j: int| 0 <= j < n && rank_of(#[trigger] devices[j]) > 0;
        assert(j == last);
        last
    }
}

/// Where any device qualifies, there is one to select.
pub proof fn lemma_selection_exists(devices: Seq<DeviceInfo>, j: int) -> (i: int)
    requires
        0 <= j < devices.len(),
        rank_of(devices[j]) > 0,
    ensures
        is_best(devices, i),
{
    lemma_best_exists_upto(devices, devices.len() as int)
}

/// The order of the list does not change how much the selected device
/// offers: two lists that hold the same devices select devices of the same
/// rank.
pub proof fn lemma_selection_ignores_order(a: Seq<DeviceInfo>, b: Seq<DeviceInfo>, i: int) -> (k: int)
    requires
        a.to_multiset() == b.to_multiset(),
        is_best(a, i),
    ensures
        is_best(b, k),
        rank_of(b[k]) == rank_of(a[i]),
{
    broadcast use vstd::seq_lib::group_to_multiset_ensures;

    assert(a.contains(a[i]));
    assert(b.to_multiset().count(a[i]) > 0);
    assert(b.contains(a[i]));
    let at = choose|at: int| 0 <= at < b.len() && b[at] == a[i];
    let k = lemma_selection_exists(b, at);
    assert(rank_of(b[at]) <= rank_of(b[k]));
    assert(b.contains(b[k]));
    assert(a.to_multiset().count(b[k]) > 0);
    assert(a.contains(b[k]));
    let back = choose|back: int| 0 <= back < a.len() && a[back] == b[k];
    assert(rank_of(a[back]) <= rank_of(a[i]));
    k
}

} // verus!
