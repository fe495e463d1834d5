use vstd::prelude::*;
use crate::backend::ReplyView;
use crate::error::Operation;
use crate::evolve::{
    in_phase, next_progress, statement_text, Phase, SetCallView, SetProgressView,
};
use crate::model::{
    after, after_all, answer, command_of, create_command, has_column, reply_agrees, Backend,
    Command,
};
use crate::outcome::reply_outcome;
use crate::run::{digit_index, hex_digit, hyphenated_text, is_hyphen_position, nibble};
use crate::table::TableView;

verus! {

/// Creating a table twice never fails and leaves the backend as creating
/// it once does: the second statement, the same text as the first, finds
/// the table and changes nothing.
pub proof fn creation_is_idempotent(
    b: Backend,
    table: TableView,
    first: ReplyView,
    second: ReplyView,
)
    requires
        reply_agrees(first, answer(b, create_command(table))),
        reply_agrees(second, answer(after(b, create_command(table)), create_command(table))),
    ensures
        reply_outcome(table.name, Operation::CreateTable, first) is Ok,
        reply_outcome(table.name, Operation::CreateTable, second) is Ok,
        after(after(b, create_command(table)), create_command(table)) == after(
            b,
            create_command(table),
        ),
        after(b, create_command(table)).created,
{
}

/// No statement takes a column away.
pub proof fn columns_only_grow(b: Backend, command: Command, column: Seq<char>)
    requires
        has_column(b, column),
    ensures
        has_column(after(b, command), column),
{
}

/// No list of statements takes a column away, nor the table.
pub proof fn columns_outlast_history(b: Backend, commands: Seq<Command>, column: Seq<char>)
    requires
        b.created,
        has_column(b, column),
    ensures
        after_all(b, commands).created,
        has_column(after_all(b, commands), column),
    decreases commands.len(),
{
    if commands.len() > 0 {
        columns_outlast_history(b, commands.drop_last(), column);
        columns_only_grow(after_all(b, commands.drop_last()), commands.last(), column);
    }
}

/// Once a column was added, every later write to it, on any run and after
/// any statements in between, is over with its first statement: the update
/// is executed and no column is added again.
pub proof fn schema_growth_is_monotonic(
    b: Backend,
    column: Seq<char>,
    later: Seq<Command>,
    call: SetCallView,
    reply: ReplyView,
)
    requires
        b.created,
        call.phase == Phase::Update,
        call.key == column,
        reply_agrees(
            reply,
            answer(after_all(after(b, Command::AddColumn { column }), later), command_of(call)),
        ),
    ensures
        next_progress(call, reply) matches SetProgressView::Finished(Ok(_)),
{
    let added = after(b, Command::AddColumn { column });
    assert(has_column(added, column));
    columns_outlast_history(added, later, column);
}

/// A field write to one run leaves every other run as it was: whichever
/// statement the write has in flight, the rows of the other runs are the
/// same before and after it.
pub proof fn runs_are_isolated(b: Backend, call: SetCallView, other: u128)
    requires
        other != call.run,
    ensures
        after(b, command_of(call)).rows.dom().contains(other) == b.rows.dom().contains(other),
        after(b, command_of(call)).rows[other] == b.rows[other],
{
}

/// Among values below 16, different values have different digits.
proof fn lemma_hex_digit_is_injective(n: u128, m: u128)
    requires
        n < 16,
        m < 16,
        hex_digit(n) == hex_digit(m),
    ensures
        n == m,
{
}

/// Two identifiers with the same text agree in the digit `k`, which stands
/// at position `p` of the text.
proof fn lemma_same_digit(a: u128, b: u128, k: int, p: int)
    requires
        hyphenated_text(a) == hyphenated_text(b),
        0 <= k < 32,
        0 <= p < 36,
        !is_hyphen_position(p),
        digit_index(p) == k,
    ensures
        nibble(a, k) == nibble(b, k),
{
    let shift = (4 * (31 - k)) as u128;
    let x = a >> shift;
    let y = b >> shift;
    assert(x & 0xf < 16) by (bit_vector);
    assert(y & 0xf < 16) by (bit_vector);
    assert(hyphenated_text(a)[p] == hex_digit(nibble(a, k)));
    assert(hyphenated_text(b)[p] == hex_digit(nibble(b, k)));
    lemma_hex_digit_is_injective(nibble(a, k), nibble(b, k));
}

/// Different runs have different texts: the hyphenated text determines the
/// identifier, so the condition of an update selects the rows of one run
/// only.
pub proof fn hyphenated_text_is_injective(a: u128, b: u128)
    requires
        hyphenated_text(a) == hyphenated_text(b),
    ensures
        a == b,
{
    lemma_same_digit(a, b, 0, 0);
    lemma_same_digit(a, b, 1, 1);
    lemma_same_digit(a, b, 2, 2);
    lemma_same_digit(a, b, 3, 3);
    lemma_same_digit(a, b, 4, 4);
    lemma_same_digit(a, b, 5, 5);
    lemma_same_digit(a, b, 6, 6);
    lemma_same_digit(a, b, 7, 7);
    lemma_same_digit(a, b, 8, 9);
    lemma_same_digit(a, b, 9, 10);
    lemma_same_digit(a, b, 10, 11);
    lemma_same_digit(a, b, 11, 12);
    lemma_same_digit(a, b, 12, 14);
    lemma_same_digit(a, b, 13, 15);
    lemma_same_digit(a, b, 14, 16);
    lemma_same_digit(a, b, 15, 17);
    lemma_same_digit(a, b, 16, 19);
    lemma_same_digit(a, b, 17, 20);
    lemma_same_digit(a, b, 18, 21);
    lemma_same_digit(a, b, 19, 22);
    lemma_same_digit(a, b, 20, 24);
    lemma_same_digit(a, b, 21, 25);
    lemma_same_digit(a, b, 22, 26);
    lemma_same_digit(a, b, 23, 27);
    lemma_same_digit(a, b, 24, 28);
    lemma_same_digit(a, b, 25, 29);
    lemma_same_digit(a, b, 26, 30);
    lemma_same_digit(a, b, 27, 31);
    lemma_same_digit(a, b, 28, 32);
    lemma_same_digit(a, b, 29, 33);
    lemma_same_digit(a, b, 30, 34);
    lemma_same_digit(a, b, 31, 35);
    assert(a == b) by (bit_vector)
        requires
            (a >> 124) & 0xf == (b >> 124) & 0xf,
            (a >> 120) & 0xf == (b >> 120) & 0xf,
            (a >> 116) & 0xf == (b >> 116) & 0xf,
            (a >> 112) & 0xf == (b >> 112) & 0xf,
            (a >> 108) & 0xf == (b >> 108) & 0xf,
            (a >> 104) & 0xf == (b >> 104) & 0xf,
            (a >> 100) & 0xf == (b >> 100) & 0xf,
            (a >> 96) & 0xf == (b >> 96) & 0xf,
            (a >> 92) & 0xf == (b >> 92) & 0xf,
            (a >> 88) & 0xf == (b >> 88) & 0xf,
            (a >> 84) & 0xf == (b >> 84) & 0xf,
            (a >> 80) & 0xf == (b >> 80) & 0xf,
            (a >> 76) & 0xf == (b >> 76) & 0xf,
            (a >> 72) & 0xf == (b >> 72) & 0xf,
            (a >> 68) & 0xf == (b >> 68) & 0xf,
            (a >> 64) & 0xf == (b >> 64) & 0xf,
            (a >> 60) & 0xf == (b >> 60) & 0xf,
            (a >> 56) & 0xf == (b >> 56) & 0xf,
            (a >> 52) & 0xf == (b >> 52) & 0xf,
            (a >> 48) & 0xf == (b >> 48) & 0xf,
            (a >> 44) & 0xf == (b >> 44) & 0xf,
            (a >> 40) & 0xf == (b >> 40) & 0xf,
            (a >> 36) & 0xf == (b >> 36) & 0xf,
            (a >> 32) & 0xf == (b >> 32) & 0xf,
            (a >> 28) & 0xf == (b >> 28) & 0xf,
            (a >> 24) & 0xf == (b >> 24) & 0xf,
            (a >> 20) & 0xf == (b >> 20) & 0xf,
            (a >> 16) & 0xf == (b >> 16) & 0xf,
            (a >> 12) & 0xf == (b >> 12) & 0xf,
            (a >> 8) & 0xf == (b >> 8) & 0xf,
            (a >> 4) & 0xf == (b >> 4) & 0xf,
            (a >> 0) & 0xf == (b >> 0) & 0xf,
    ;
}

/// The retry sends the update of the first attempt again, letter for
/// letter.
pub proof fn retry_repeats_the_update(call: SetCallView)
    ensures
        statement_text(in_phase(call, Phase::Retry)) == statement_text(
            in_phase(call, Phase::Update),
        ),
{
}

} // verus!
