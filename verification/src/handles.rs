//! Lock-free handles through which the UI thread steers the real-time audio
//! callbacks.
use crate::dsp::{law_code_roundtrip, ChannelMode};
use std::sync::atomic::{AtomicBool, AtomicU8, Ordering};
use std::sync::Arc;
use vstd::prelude::*;

verus! {

/// The numbers that an atomic byte holds in the course of its life, from its
/// first value on.
pub uninterp spec fn byte_history(cell: AtomicU8) -> Set<u8>;

/// The truth values that an atomic flag holds in the course of its life, from
/// its first value on.
pub uninterp spec fn flag_history(cell: AtomicBool) -> Set<bool>;

/// Calls `AtomicU8::new`. Claimed of it: the given number is one that the new
/// byte holds.
#[verifier::external_body]
fn new_byte(value: u8) -> (cell: AtomicU8)
    ensures
        byte_history(cell).contains(value),
{
    AtomicU8::new(value)
}

/// Calls `AtomicU8::store` and hands the stored number back. Claimed of it:
/// the given number is one that the byte holds. Which number a later load
/// finds is left unsaid: another thread may have stored since.
#[verifier::external_body]
fn store_byte(cell: &AtomicU8, value: u8) -> (stored: u8)
    ensures
        stored == value,
        byte_history(*cell).contains(stored),
{
    cell.store(value, Ordering::Relaxed);
    value
}

/// Calls `AtomicU8::load`. Claimed of it: the number found is one that the
/// byte holds in the course of its life, never another.
#[verifier::external_body]
fn load_byte(cell: &AtomicU8) -> (value: u8)
    ensures
        byte_history(*cell).contains(value),
{
    cell.load(Ordering::Relaxed)
}

/// Calls `AtomicBool::new`. Claimed of it: the given value is one that the new
/// flag holds.
#[verifier::external_body]
fn new_flag(value: bool) -> (cell: AtomicBool)
    ensures
        flag_history(cell).contains(value),
{
    AtomicBool::new(value)
}

/// Calls `AtomicBool::store` and hands the stored value back. Claimed of it:
/// the given value is one that the flag holds. Which value a later load finds
/// is left unsaid: another thread may have stored since.
#[verifier::external_body]
fn store_flag(cell: &AtomicBool, value: bool) -> (stored: bool)
    ensures
        stored == value,
        flag_history(*cell).contains(stored),
{
    cell.store(value, Ordering::Relaxed);
    value
}

/// Calls `AtomicBool::load`. Claimed of it: the value found is one that the
/// flag holds in the course of its life, never another.
#[verifier::external_body]
fn load_flag(cell: &AtomicBool) -> (value: bool)
    ensures
        flag_history(*cell).contains(value),
{
    cell.load(Ordering::Relaxed)
}

/// Calls `Arc::clone`. Claimed of it: the new pointer points to the same
/// value.
#[verifier::external_body]
fn share<T>(shared: &Arc<T>) -> (other: Arc<T>)
    ensures
        other == *shared,
{
    Arc::clone(shared)
}

/// Shared, lock-free handle the UI thread uses to change the active channel
/// mode without ever touching the real-time audio callback with a mutex.
pub struct ModeHandle(Arc<AtomicU8>);

impl ModeHandle {
    /// The cell behind the handle.
    pub closed spec fn cell(&self) -> AtomicU8 {
        *self.0
    }

    /// `mode` is one that this handle, or one that shares its cell, shows at
    /// some time in the cell's life: one that it was made with, was set to, or
    /// will be set to.
    pub closed spec fn may_show(&self, mode: ChannelMode) -> bool {
        exists|code: u8| #[trigger]
            byte_history(*self.0).contains(code) && ChannelMode::of_code(code) == mode
    }

    /// A handle that shows `initial`.
    pub fn new(initial: ChannelMode) -> (handle: Self)
        ensures
            handle.may_show(initial),
    {
        let code: u8 = initial.to_code();
        let handle: ModeHandle = ModeHandle(Arc::new(new_byte(code)));
        proof {
            law_code_roundtrip(initial);
            assert(byte_history(*handle.0).contains(code));
        }
        handle
    }

    /// Makes `mode` the active mode for everyone who shares this handle.
    pub fn set(&self, mode: ChannelMode)
        ensures
            self.may_show(mode),
    {
        let code: u8 = mode.to_code();
        let stored: u8 = store_byte(&self.0, code);
        proof {
            law_code_roundtrip(mode);
            assert(byte_history(*self.0).contains(stored));
        }
    }

    /// The active mode: always one that the cell holds in the course of its
    /// life.
    pub fn get(&self) -> (mode: ChannelMode)
        ensures
            self.may_show(mode),
    {
        let code: u8 = load_byte(&self.0);
        assert(byte_history(*self.0).contains(code));
        ChannelMode::from_code(code)
    }
}

impl Clone for ModeHandle {
    fn clone(&self) -> (other: Self)
        ensures
            other == *self,
    {
        ModeHandle(share(&self.0))
    }
}

/// Shared, lock-free handle the UI thread uses to mute this app's forwarded
/// audio without touching the OS output device's master mute.
pub struct MuteHandle(Arc<AtomicBool>);

impl MuteHandle {
    /// The cell behind the handle.
    pub closed spec fn cell(&self) -> AtomicBool {
        *self.0
    }

    /// `muted` is a value that this handle, or one that shares its cell, shows
    /// at some time in the cell's life: one that it was made with, was set to,
    /// or will be set to.
    pub closed spec fn may_show(&self, muted: bool) -> bool {
        flag_history(*self.0).contains(muted)
    }

    /// A handle that shows `initial`.
    pub fn new(initial: bool) -> (handle: Self)
        ensures
            handle.may_show(initial),
    {
        MuteHandle(Arc::new(new_flag(initial)))
    }

    /// Mutes or unmutes for everyone who shares this handle.
    pub fn set(&self, muted: bool)
        ensures
            self.may_show(muted),
    {
        let stored: bool = store_flag(&self.0, muted);
        assert(flag_history(*self.0).contains(stored));
    }

    /// Whether the app is muted: always a value that the cell holds in the
    /// course of its life.
    pub fn get(&self) -> (muted: bool)
        ensures
            self.may_show(muted),
    {
        load_flag(&self.0)
    }
}

impl Clone for MuteHandle {
    fn clone(&self) -> (other: Self)
        ensures
            other == *self,
    {
        MuteHandle(share(&self.0))
    }
}

/// A mode that a handle may show is one whose number its cell holds at some
/// time; a mute value likewise. So setting a handle stores just that.
pub proof fn law_shown_is_held(
    mode_handle: ModeHandle,
    mute_handle: MuteHandle,
    mode: ChannelMode,
    muted: bool,
)
    ensures
        mode_handle.may_show(mode) ==> exists|code: u8| #[trigger]
            byte_history(mode_handle.cell()).contains(code) && ChannelMode::of_code(code) == mode,
        mute_handle.may_show(muted) ==> flag_history(mute_handle.cell()).contains(muted),
{
    if mode_handle.may_show(mode) {
        let code = choose|code: u8| #[trigger]
            byte_history(*mode_handle.0).contains(code) && ChannelMode::of_code(code) == mode;
        assert(byte_history(mode_handle.cell()).contains(code));
    }
}

/// What calls on a handle do: a mode that a handle is made with or set to is
/// stored in its cell under its own number, what is read is the mode of a
/// number that the cell holds, and a clone is a handle on the same cell. A mute
/// handle does the same with its value.
pub proof fn law_handle_calls(
    mode: ChannelMode,
    made: ModeHandle,
    set: ModeHandle,
    read: ModeHandle,
    found: ChannelMode,
    copy: ModeHandle,
    muted: bool,
    mute_made: MuteHandle,
    mute_set: MuteHandle,
    mute_read: MuteHandle,
    mute_found: bool,
    mute_copy: MuteHandle,
)
    requires
        call_ensures(ModeHandle::new, (mode,), made),
        call_ensures(ModeHandle::set, (&set, mode), ()),
        call_ensures(ModeHandle::get, (&read,), found),
        call_ensures(ModeHandle::clone, (&read,), copy),
        call_ensures(MuteHandle::new, (muted,), mute_made),
        call_ensures(MuteHandle::set, (&mute_set, muted), ()),
        call_ensures(MuteHandle::get, (&mute_read,), mute_found),
        call_ensures(MuteHandle::clone, (&mute_read,), mute_copy),
    ensures
        exists|code: u8| #[trigger]
            byte_history(made.cell()).contains(code) && ChannelMode::of_code(code) == mode,
        exists|code: u8| #[trigger]
            byte_history(set.cell()).contains(code) && ChannelMode::of_code(code) == mode,
        exists|code: u8| #[trigger]
            byte_history(read.cell()).contains(code) && ChannelMode::of_code(code) == found,
        copy.cell() == read.cell(),
        flag_history(mute_made.cell()).contains(muted),
        flag_history(mute_set.cell()).contains(muted),
        flag_history(mute_read.cell()).contains(mute_found),
        mute_copy.cell() == mute_read.cell(),
{
    law_shown_is_held(made, mute_made, mode, muted);
    law_shown_is_held(set, mute_set, mode, muted);
    law_shown_is_held(read, mute_read, found, mute_found);
}

} // verus!
