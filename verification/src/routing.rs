//! Per-app output routing: which of a process's persisted endpoint overrides
//! are read and written, and with what.
use crate::text::{join3, opt_chars};
use vstd::prelude::*;

verus! {

/// The uses of a playback device that are routed.
#[derive(Debug, Clone, Copy, PartialEq, Eq, Structural)]
pub enum Role {
    Console,
    Multimedia,
}

/// Snapshot of a process's per-role render endpoint overrides, as they were
/// before this app touched them. Captured by `get_endpoint_override` and later
/// handed to `restore_endpoint` to put things back exactly as they were --
/// whether that's "Default" (no override) or some other device the user had
/// already assigned that app themselves.
pub struct EndpointOverride {
    console: Option<String>,
    multimedia: Option<String>,
}

/// What an `EndpointOverride` stands for.
#[verifier::ext_equal]
pub struct OverrideView {
    pub console: Option<Seq<char>>,
    pub multimedia: Option<Seq<char>>,
}

impl View for EndpointOverride {
    type V = OverrideView;

    closed spec fn view(&self) -> OverrideView {
        OverrideView { console: opt_chars(self.console), multimedia: opt_chars(self.multimedia) }
    }
}

impl Clone for EndpointOverride {
    fn clone(&self) -> (copy: Self)
        ensures
            copy@ == self@,
    {
        EndpointOverride { console: self.console.clone(), multimedia: self.multimedia.clone() }
    }
}

/// The override that a persisted value stands for: an empty one means
/// "Default".
pub open spec fn override_of(value: Seq<char>) -> Option<Seq<char>> {
    if value.len() == 0 {
        None
    } else {
        Some(value)
    }
}

/// The value that persists an override: "Default" is the empty one.
pub open spec fn value_of(wanted: Option<Seq<char>>) -> Seq<char> {
    match wanted {
        Some(value) => value,
        None => Seq::empty(),
    }
}

/// The override that a persisted value stands for.
pub fn persisted_endpoint(value: String) -> (found: Option<String>)
    ensures
        opt_chars(found) == override_of(value@),
{
    if value.as_str().is_empty() {
        None
    } else {
        Some(value)
    }
}

/// Puts the two persisted values of a process together, or passes on the first
/// failure to read one.
pub fn get_endpoint_override<E>(console: Result<String, E>, multimedia: Result<String, E>) -> (got:
    Result<EndpointOverride, E>)
    ensures
        match (console, multimedia) {
            (Ok(c), Ok(m)) => got is Ok && got->Ok_0@ == (OverrideView {
                console: override_of(c@),
                multimedia: override_of(m@),
            }),
            (Err(e), _) => got == Err::<EndpointOverride, E>(e),
            (Ok(_), Err(e)) => got == Err::<EndpointOverride, E>(e),
        },
{
    match console {
        Err(e) => Err(e),
        Ok(c) => match multimedia {
            Err(e) => Err(e),
            Ok(m) => Ok(
                EndpointOverride {
                    console: persisted_endpoint(c),
                    multimedia: persisted_endpoint(m),
                },
            ),
        },
    }
}

/// One value to be persisted for a process.
pub struct EndpointWrite {
    pub role: Role,
    pub value: String,
}

/// What an `EndpointWrite` stands for.
#[verifier::ext_equal]
pub struct WriteView {
    pub role: Role,
    pub value: Seq<char>,
}

impl View for EndpointWrite {
    type V = WriteView;

    open spec fn view(&self) -> WriteView {
        WriteView { role: self.role, value: self.value@ }
    }
}

/// What each write of a list stands for.
pub open spec fn writes_view(writes: Seq<EndpointWrite>) -> Seq<WriteView> {
    writes.map_values(|w: EndpointWrite| w@)
}

/// A bare device ID with the device interface path around it: the form in
/// which it is persisted, as the bare ID alone is rejected.
pub open spec fn wrapped(device_id: Seq<char>) -> Seq<char> {
    "\\\\?\\SWD#MMDEVAPI#"@ + device_id + "#{e6327cad-dcec-4949-ae8a-991e976a79d2}"@
}

/// A bare device ID with the device interface path around it.
pub fn wrap_device_id(device_id: &str) -> (id: String)
    ensures
        id@ == wrapped(device_id@),
{
    join3("\\\\?\\SWD#MMDEVAPI#", device_id, "#{e6327cad-dcec-4949-ae8a-991e976a79d2}")
}

/// The writes that route a process to a device.
pub open spec fn route_writes(device_id: Seq<char>) -> Seq<WriteView> {
    seq![
        WriteView { role: Role::Console, value: wrapped(device_id) },
        WriteView { role: Role::Multimedia, value: wrapped(device_id) },
    ]
}

/// The writes that bring a snapshot back.
pub open spec fn restore_writes(original: OverrideView) -> Seq<WriteView> {
    seq![
        WriteView { role: Role::Console, value: value_of(original.console) },
        WriteView { role: Role::Multimedia, value: value_of(original.multimedia) },
    ]
}

/// The writes that assign a process's default render (playback) endpoint to
/// `device_id`, a raw device ID string. They are to be made in order, up to
/// the first that fails.
pub fn route_process_to_endpoint(device_id: &str) -> (writes: Vec<EndpointWrite>)
    ensures
        writes_view(writes@) == route_writes(device_id@),
{
    let mut writes: Vec<EndpointWrite> = Vec::new();
    writes.push(EndpointWrite { role: Role::Console, value: wrap_device_id(device_id) });
    writes.push(EndpointWrite { role: Role::Multimedia, value: wrap_device_id(device_id) });
    assert(writes_view(writes@) =~= route_writes(device_id@));
    writes
}

/// Which of `count` writes is to be made next, after `made` of them: they are
/// made in order, up to the first that fails.
pub fn next_write(count: usize, made: usize, failed: bool) -> (next: Option<usize>)
    ensures
        next == (if !failed && made < count {
            Some(made)
        } else {
            None
        }),
{
    if !failed && made < count {
        Some(made)
    } else {
        None
    }
}

fn override_value(wanted: &Option<String>) -> (value: String)
    ensures
        value@ == value_of(opt_chars(*wanted)),
{
    match wanted {
        Some(value) => value.clone(),
        None => String::new(),
    }
}

/// The writes that restore a process's per-app render endpoint overrides to a
/// previously captured snapshot, clearing back to "Default" for any role that
/// didn't have an override. They are to be made in order, up to the first that
/// fails.
pub fn restore_endpoint(original: &EndpointOverride) -> (writes: Vec<EndpointWrite>)
    ensures
        writes_view(writes@) == restore_writes(original@),
{
    let mut writes: Vec<EndpointWrite> = Vec::new();
    writes.push(
        EndpointWrite { role: Role::Console, value: override_value(&original.console) },
    );
    writes.push(
        EndpointWrite { role: Role::Multimedia, value: override_value(&original.multimedia) },
    );
    assert(writes_view(writes@) =~= restore_writes(original@));
    writes
}

/// The values that the system persists for one process.
#[verifier::ext_equal]
pub struct PersistedEndpoints {
    pub console: Seq<char>,
    pub multimedia: Seq<char>,
}

/// The persisted values after one write.
pub open spec fn after_write(stored: PersistedEndpoints, write: WriteView) -> PersistedEndpoints {
    match write.role {
        Role::Console => PersistedEndpoints { console: write.value, ..stored },
        Role::Multimedia => PersistedEndpoints { multimedia: write.value, ..stored },
    }
}

/// The persisted values after a row of writes.
pub open spec fn after_writes(
    stored: PersistedEndpoints,
    writes: Seq<WriteView>,
) -> PersistedEndpoints
    decreases writes.len(),
{
    if writes.len() == 0 {
        stored
    } else {
        after_write(after_writes(stored, writes.drop_last()), writes.last())
    }
}

/// The snapshot of the persisted values.
pub open spec fn snapshot(stored: PersistedEndpoints) -> OverrideView {
    OverrideView {
        console: override_of(stored.console),
        multimedia: override_of(stored.multimedia),
    }
}

/// Restoring puts things back exactly as they were: a snapshot taken before,
/// and written back after, a process was routed -- even where only some of
/// the routing's writes were made -- leaves every persisted value as it was.
pub proof fn law_restore_undoes_route(stored: PersistedEndpoints, device_id: Seq<char>, made: int)
    requires
        0 <= made <= route_writes(device_id).len(),
    ensures
        after_writes(
            after_writes(stored, route_writes(device_id).take(made)),
            restore_writes(snapshot(stored)),
        ) == stored,
{
    let routed = after_writes(stored, route_writes(device_id).take(made));
    let writes = restore_writes(snapshot(stored));
    reveal_with_fuel(after_writes, 3);
    assert(value_of(override_of(stored.console)) =~= stored.console);
    assert(value_of(override_of(stored.multimedia)) =~= stored.multimedia);
    assert(writes.drop_last().drop_last() =~= Seq::empty());
    assert(after_writes(routed, writes) =~= stored);
}

/// Once a process is routed, both roles hold the wrapped ID of the device.
pub proof fn law_route_covers_both_roles(stored: PersistedEndpoints, device_id: Seq<char>)
    ensures
        after_writes(stored, route_writes(device_id)) == (PersistedEndpoints {
            console: wrapped(device_id),
            multimedia: wrapped(device_id),
        }),
{
    reveal_with_fuel(after_writes, 3);
    assert(route_writes(device_id).drop_last().drop_last() =~= Seq::empty());
}

/// The interfaces of the audio policy service that are known, newest system
/// first: different builds implement different (incompatible) versions, so
/// they are tried in turn.
pub open spec fn known_interfaces() -> Seq<u128> {
    seq![
        0xab3d4648_e242_459f_b02f_541c70306324u128,
        0x2a59116d_6c4f_45e0_a74f_707e3fef9258u128,
        0x32aa8e18_6496_4e24_9f94_b800e7eccc45u128,
    ]
}

/// The interface to try after `failed` ones did not match; `None` once all
/// known ones have been tried.
pub fn next_interface(failed: usize) -> (iid: Option<u128>)
    ensures
        iid == (if failed < known_interfaces().len() {
            Some(known_interfaces()[failed as int])
        } else {
            None
        }),
{
    match failed {
        0 => Some(0xab3d4648_e242_459f_b02f_541c70306324u128),
        1 => Some(0x2a59116d_6c4f_45e0_a74f_707e3fef9258u128),
        2 => Some(0x32aa8e18_6496_4e24_9f94_b800e7eccc45u128),
        _ => None,
    }
}

/// An empty persisted value means "Default" and any other is an override; an
/// override is persisted as it is, and "Default" as the empty value.
pub proof fn law_overrides_and_values(value: Seq<char>)
    ensures
        override_of(value) is None <==> value.len() == 0,
        value.len() > 0 ==> override_of(value) == Some(value),
        value_of(Some(value)) == value,
        value_of(None).len() == 0,
{
}

/// A wrapped ID is the bare one with the device interface path around it, so no
/// two devices are wrapped alike.
pub proof fn law_wrapped_id(device_id: Seq<char>, other: Seq<char>)
    ensures
        wrapped(device_id) == "\\\\?\\SWD#MMDEVAPI#"@ + device_id
            + "#{e6327cad-dcec-4949-ae8a-991e976a79d2}"@,
        wrapped(device_id) == wrapped(other) ==> device_id == other,
{
    let front = "\\\\?\\SWD#MMDEVAPI#"@;
    let back = "#{e6327cad-dcec-4949-ae8a-991e976a79d2}"@;
    if wrapped(device_id) == wrapped(other) {
        assert(wrapped(device_id).len() == front.len() + device_id.len() + back.len());
        assert(wrapped(other).len() == front.len() + other.len() + back.len());
        assert forall|i: int| 0 <= i < device_id.len() implies device_id[i] == other[i] by {
            assert(wrapped(device_id)[front.len() + i] == device_id[i]);
            assert(wrapped(other)[front.len() + i] == other[i]);
        }
        assert(device_id =~= other);
    }
}

/// Routing and restoring write each role once, the console first. Routing
/// writes the wrapped ID to both; restoring writes to each role what was found
/// there, and the empty value where there was no override.
pub proof fn law_what_is_written(device_id: Seq<char>, original: OverrideView)
    ensures
        route_writes(device_id).len() == 2,
        route_writes(device_id)[0].role == Role::Console,
        route_writes(device_id)[1].role == Role::Multimedia,
        route_writes(device_id)[0].value == wrapped(device_id),
        route_writes(device_id)[1].value == wrapped(device_id),
        restore_writes(original).len() == 2,
        restore_writes(original)[0].role == Role::Console,
        restore_writes(original)[1].role == Role::Multimedia,
        original.console matches Some(id) ==> restore_writes(original)[0].value == id,
        original.console is None ==> restore_writes(original)[0].value.len() == 0,
        original.multimedia matches Some(id) ==> restore_writes(original)[1].value == id,
        original.multimedia is None ==> restore_writes(original)[1].value.len() == 0,
{
}

/// Whatever became of the persisted values since, writing a snapshot back
/// leaves them as they were when it was taken.
pub proof fn law_restore_brings_the_snapshot_back(
    then: PersistedEndpoints,
    now: PersistedEndpoints,
)
    ensures
        after_writes(now, restore_writes(snapshot(then))) == then,
        snapshot(after_writes(now, restore_writes(snapshot(then)))) == snapshot(then),
{
    let writes = restore_writes(snapshot(then));
    reveal_with_fuel(after_writes, 3);
    assert(value_of(override_of(then.console)) =~= then.console);
    assert(value_of(override_of(then.multimedia)) =~= then.multimedia);
    assert(writes.drop_last().drop_last() =~= Seq::empty());
    assert(after_writes(now, writes) =~= then);
}

/// What writes stand for is what they hold.
pub proof fn law_writes_view(writes: Seq<EndpointWrite>)
    ensures
        writes_view(writes).len() == writes.len(),
        forall|i: int|
            0 <= i < writes.len() ==> (#[trigger] writes_view(writes)[i]).role == writes[i].role
                && writes_view(writes)[i].value == writes[i].value@,
{
}

/// The interfaces that are tried, in order: three, and none twice.
pub proof fn law_known_interfaces()
    ensures
        known_interfaces().len() == 3,
        known_interfaces()[0] == 0xab3d4648_e242_459f_b02f_541c70306324u128,
        known_interfaces()[1] == 0x2a59116d_6c4f_45e0_a74f_707e3fef9258u128,
        known_interfaces()[2] == 0x32aa8e18_6496_4e24_9f94_b800e7eccc45u128,
{
}

/// Writes are made in order, each once, until all are made or one fails; and
/// interfaces are tried in order until all known ones have been.
pub proof fn law_order_of_writes_and_interfaces(
    count: usize,
    made: usize,
    next: Option<usize>,
    stopped: Option<usize>,
    iid: Option<u128>,
)
    requires
        call_ensures(next_write, (count, made, false), next),
        call_ensures(next_write, (count, made, true), stopped),
        call_ensures(next_interface, (made,), iid),
    ensures
        stopped is None,
        next is Some <==> made < count,
        next matches Some(i) ==> i == made,
        iid is Some <==> made < 3,
        iid matches Some(id) ==> id == known_interfaces()[made as int],
{
}

/// A snapshot holds for each role what was read of that role; where a role
/// could not be read there is none, and the first failure is the one told.
pub proof fn law_snapshot_of_both_roles<E>(
    console: String,
    multimedia: String,
    e: E,
    f: E,
    got: Result<EndpointOverride, E>,
    first: Result<EndpointOverride, E>,
    second: Result<EndpointOverride, E>,
    both: Result<EndpointOverride, E>,
)
    requires
        call_ensures(get_endpoint_override::<E>, (Ok(console), Ok(multimedia)), got),
        call_ensures(get_endpoint_override::<E>, (Err(e), Ok(multimedia)), first),
        call_ensures(get_endpoint_override::<E>, (Ok(console), Err(f)), second),
        call_ensures(get_endpoint_override::<E>, (Err(e), Err(f)), both),
    ensures
        got is Ok,
        got->Ok_0@ == snapshot(
            PersistedEndpoints { console: console@, multimedia: multimedia@ },
        ),
        first == Err::<EndpointOverride, E>(e),
        second == Err::<EndpointOverride, E>(f),
        both == Err::<EndpointOverride, E>(e),
        console@.len() > 0 ==> got->Ok_0@.console == Some(console@),
        console@.len() == 0 ==> got->Ok_0@.console is None,
        multimedia@.len() > 0 ==> got->Ok_0@.multimedia == Some(multimedia@),
        multimedia@.len() == 0 ==> got->Ok_0@.multimedia is None,
{
}

/// What calls that route and restore answer: two writes, one for each role, the
/// console's first; the wrapped ID for both when routing, and when restoring
/// what the snapshot holds of that role, or nothing.
pub proof fn law_write_calls(
    device_id: &str,
    original: EndpointOverride,
    routed: Vec<EndpointWrite>,
    restored: Vec<EndpointWrite>,
)
    requires
        call_ensures(route_process_to_endpoint, (device_id,), routed),
        call_ensures(restore_endpoint, (&original,), restored),
    ensures
        routed@.len() == 2,
        routed@[0].role == Role::Console,
        routed@[1].role == Role::Multimedia,
        routed@[0].value@ == wrapped(device_id@),
        routed@[1].value@ == wrapped(device_id@),
        restored@.len() == 2,
        restored@[0].role == Role::Console,
        restored@[1].role == Role::Multimedia,
        original@.console matches Some(id) ==> restored@[0].value@ == id,
        original@.console is None ==> restored@[0].value@.len() == 0,
        original@.multimedia matches Some(id) ==> restored@[1].value@ == id,
        original@.multimedia is None ==> restored@[1].value@.len() == 0,
{
    law_what_is_written(device_id@, original@);
    law_writes_view(routed@);
    law_writes_view(restored@);
    assert(writes_view(routed@)[0].role == routed@[0].role);
    assert(writes_view(routed@)[1].role == routed@[1].role);
    assert(writes_view(restored@)[0].role == restored@[0].role);
    assert(writes_view(restored@)[1].role == restored@[1].role);
}

} // verus!
