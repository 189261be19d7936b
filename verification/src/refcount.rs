//! The reference count that Janus keeps inside the objects it shares with
//! its plugins.

use crate::utils::{address_text, decimal_text, push_address, push_number};
use vstd::prelude::*;
use vstd::string::*;

verus! {

/// The count of the references to an object of Janus. When it falls to
/// zero, the object is freed by the function that Janus registered with it.
#[derive(Debug, Copy, Clone, PartialEq, Eq, Hash, Structural)]
pub struct ReferenceCount {
    pub count: i32,
}

/// Increments the given reference count by 1.
pub fn increase(refcount: &mut ReferenceCount)
    requires
        old(refcount).count < i32::MAX,
    ensures
        final(refcount).count == old(refcount).count + 1,
    no_unwind
{
    refcount.count = refcount.count + 1;
}

/// Decrements the given reference count by 1, and says whether it is now
/// 0, on which the object is to be freed.
pub fn decrease(refcount: &mut ReferenceCount) -> (free: bool)
    requires
        old(refcount).count > i32::MIN,
    ensures
        final(refcount).count == old(refcount).count - 1,
        free == (final(refcount).count == 0),
    no_unwind
{
    refcount.count = refcount.count - 1;
    refcount.count == 0
}

/// Whether the native decrement-and-test, which answers 1 where the count
/// fell to zero, asks for the object to be freed.
pub fn reached_zero(answer: i32) -> (free: bool)
    ensures
        free == (answer == 1),
{
    answer == 1
}

/// A line of the debugging log of reference counts: who changed the
/// count, the address of the count, and the count after the change.
pub open spec fn count_message(who: Seq<char>, address: nat, count: int) -> Seq<char> {
    who + seq![' '] + address_text(address) + seq![' ', '('] + decimal_text(count) + seq![
        ')',
        '\n',
    ]
}

/// Puts a line of the debugging log together.
fn message(who: &str, address: usize, count: i32) -> (line: String)
    ensures
        line@ == count_message(who@, address as nat, count as int),
{
    proof {
        reveal_strlit(" ");
        reveal_strlit(" (");
        reveal_strlit(")\n");
    }
    let mut line = String::from_str(who);
    line.append(" ");
    push_address(&mut line, address);
    line.append(" (");
    push_number(&mut line, count);
    line.append(")\n");
    line
}

/// The line that is logged before the count at `address`, which is
/// `count`, is increased: it shows the count that the increase leaves.
pub fn increase_message(address: usize, count: i32) -> (line: String)
    requires
        count < i32::MAX,
    ensures
        line@ == count_message("[rust:increase]"@, address as nat, count + 1),
{
    message("[rust:increase]", address, count + 1)
}

/// The line that is logged before the count at `address`, which is
/// `count`, is decreased: it shows the count that the decrease leaves.
pub fn decrease_message(address: usize, count: i32) -> (line: String)
    requires
        count > i32::MIN,
    ensures
        line@ == count_message("[rust:decrease]"@, address as nat, count - 1),
{
    message("[rust:decrease]", address, count - 1)
}

} // verus!
