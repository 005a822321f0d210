//! What holds of the commands together, whatever the list and the arguments.

use vstd::prelude::*;
use crate::index::{index_of, IndexError};
use crate::item::Item;
use crate::number::{decimal, is_digit, lemma_decimal_round_trip, parse_number};
use crate::store::{changes_only, toggled};

verus! {

/// The index arguments that name a task of a list of `len` tasks are exactly
/// the numerals of the numbers from one to `len`, and the numeral of `n`
/// names the task at position `n - 1`.
pub proof fn lemma_valid_indices(arg: Seq<char>, len: nat)
    ensures
        index_of(Some(arg), len) is Ok <==> exists|n: nat|
            1 <= n <= len && parse_number(arg) == Some(n),
        forall|n: nat|
            1 <= n <= len && parse_number(arg) == Some(n) ==> index_of(Some(arg), len) == Ok::<
                nat,
                IndexError,
            >((n - 1) as nat),
{
}

/// An index argument that names no task is rejected, each for its reason: a
/// missing one as missing; one that is no numeral, such as a word or a
/// number with a minus sign, as malformed; the numeral of zero and that of a
/// number greater than `len` as out of range.
pub proof fn lemma_rejected_indices(arg: Seq<char>, len: nat)
    ensures
        index_of(None, len) == Err::<nat, IndexError>(IndexError::MissingIndexArgument),
        parse_number(arg) is None ==> index_of(Some(arg), len) == Err::<nat, IndexError>(
            IndexError::InvalidIndexFormat,
        ),
        arg.len() > 0 && !is_digit(arg[0]) && arg[0] != '+' ==> parse_number(arg) is None,
        arg.len() == 0 ==> parse_number(arg) is None,
        parse_number(arg) == Some(0nat) ==> index_of(Some(arg), len) == Err::<nat, IndexError>(
            IndexError::IndexOutOfRange,
        ),
        parse_number(arg) is Some && parse_number(arg)->0 > len ==> index_of(Some(arg), len)
            == Err::<nat, IndexError>(IndexError::IndexOutOfRange),
{
}

/// The number that the list shows beside an entry is an index argument for
/// that entry: the one at `position` is shown as `position + 1`, and the
/// numeral of `position + 1` resolves to `position`.
pub proof fn lemma_listed_number_names_task(position: nat, len: nat)
    requires
        position < len,
    ensures
        index_of(Some(decimal(position + 1)), len) == Ok::<nat, IndexError>(position),
{
    lemma_decimal_round_trip(position + 1);
}

/// Toggling the same task twice gives the list back: it holds the same tasks
/// in the same order, the toggled one with its first flag.
///
/// `once` and `twice` are the list after the first and after the second
/// toggle of the task at `i` in `start`, as `toggle_item` leaves it.
pub proof fn lemma_toggle_twice_restores(
    start: Vec<Item>,
    once: Vec<Item>,
    twice: Vec<Item>,
    i: int,
)
    requires
        0 <= i < start@.len(),
        changes_only(start@, once@, i),
        once@[i]@ == toggled(start@[i]@),
        changes_only(once@, twice@, i),
        twice@[i]@ == toggled(once@[i]@),
    ensures
        twice.deep_view() == start.deep_view(),
        toggled(toggled(start@[i]@)) == start@[i]@,
{
}

/// Deleting a task keeps the others in their order: those before it stay
/// where they are, those behind it move up by one, so that each is from then
/// on named by the index one less.
///
/// `after` is the list that `delete_item` leaves of `before` when it removes
/// the task at `i`.
pub proof fn lemma_delete_moves_up(before: Vec<Item>, after: Vec<Item>, i: int)
    requires
        0 <= i < before@.len(),
        after@ == before@.remove(i),
    ensures
        after@.len() == before@.len() - 1,
        forall|k: int| 0 <= k < i ==> #[trigger] after@[k] == before@[k],
        forall|k: int| i <= k < after@.len() ==> #[trigger] after@[k] == before@[k + 1],
{
}

} // verus!
