//! The operator's cycle: take the lock, read the offset, and, once the next
//! chat update is at hand, store the offset past it before turning it into
//! a ledger payload, then release the lock. Fetching the update is left to
//! the caller; everything decided around it is here.

use vstd::prelude::*;
use crate::bot::{CommandView, TelegramBotCommand, TelegramWavsCommand, message_command, text_of};
use crate::cursor::{Cas, KvStore, KvStoreResult, StoreView, acquire_lock, cas_succeeds, cell,
    get_offset, lock_free, lock_key, locked, locks_bucket, offset_bucket, offset_bytes, offset_key,
    offset_of, release_lock, seen_view, set_cell, set_offset, lemma_offset_round_trip};
use crate::msg::{PayloadView, RegisterReceiveMsg, SendPaymentMsg, WavsPayload};
use crate::telegram::{TelegramMessage, TelegramUpdate};

verus! {

/// The message an update carries: a new one, else an edited one.
pub open spec fn update_message(u: TelegramUpdate) -> Option<TelegramMessage> {
    match u.message {
        Some(m) => Some(m),
        None => u.edited_message,
    }
}

fn update_into_message(update: TelegramUpdate) -> (r: Option<TelegramMessage>)
    ensures
        r == update_message(update),
{
    if let Some(message) = update.message {
        Some(message)
    } else if let Some(edited_message) = update.edited_message {
        Some(edited_message)
    } else {
        None
    }
}

/// The command in an update, if its message holds one.
pub fn parse_update(update: TelegramUpdate) -> (r: Option<TelegramBotCommand>)
    ensures
        match r {
            Some(c) => update_message(update) == Some(c.raw) && message_command(
                text_of(c.raw),
                c.raw.chat.chat_type,
                c.raw.chat.id,
            ) == Ok::<CommandView, crate::bot::BotErrorView>(c.command@),
            None => match update_message(update) {
                Some(m) => message_command(text_of(m), m.chat.chat_type, m.chat.id) is Err,
                None => true,
            },
        },
{
    match update_into_message(update) {
        Some(m) => match TelegramBotCommand::from_message(m) {
            Ok(c) => Some(c),
            Err(_) => None,
        },
        None => None,
    }
}

/// The ledger payload a command from `username` in message `message_id`
/// asks for: registering the sender's handle, or a payment from it. Other
/// commands, and senders without a username, ask for none.
pub open spec fn payload_for(c: CommandView, message_id: i64, username: Option<Seq<char>>) -> Option<PayloadView> {
    match username {
        None => None,
        Some(from) => match c {
            CommandView::Receive(address) => Some(PayloadView::Register(message_id, from, address)),
            CommandView::Send(handle, amount, denom) => Some(
                PayloadView::SendPayment(message_id, from, handle, amount, denom),
            ),
            _ => None,
        },
    }
}

pub open spec fn username_of(m: TelegramMessage) -> Option<Seq<char>> {
    match m.from.username {
        Some(u) => Some(u@),
        None => None,
    }
}

pub open spec fn payload_view(p: Option<WavsPayload>) -> Option<PayloadView> {
    match p {
        Some(w) => Some(w@),
        None => None,
    }
}

/// The ledger payload a command asks for.
pub fn map_command_to_contract(cmd: TelegramBotCommand) -> (r: Option<WavsPayload>)
    ensures
        payload_view(r) == payload_for(cmd.command@, cmd.raw.message_id, username_of(cmd.raw)),
{
    let TelegramBotCommand { command, raw } = cmd;
    let from_handle = match raw.from.username {
        Some(u) => u,
        None => {
            return None;
        },
    };
    match command {
        TelegramWavsCommand::Receive { address } => Some(
            WavsPayload::Register(
                RegisterReceiveMsg { message_id: raw.message_id, chain_addr: address, tg_handle: from_handle },
            ),
        ),
        TelegramWavsCommand::Send { handle, amount, denom } => Some(
            WavsPayload::SendPayment(
                SendPaymentMsg {
                    message_id: raw.message_id,
                    from_tg: from_handle,
                    to_tg: handle,
                    amount,
                    denom,
                },
            ),
        ),
        _ => None,
    }
}

/// The payload an update asks for, if any.
pub open spec fn update_payload(u: TelegramUpdate) -> Option<PayloadView> {
    match update_message(u) {
        None => None,
        Some(m) => match message_command(text_of(m), m.chat.chat_type, m.chat.id) {
            Ok(c) => payload_for(c, m.message_id, username_of(m)),
            Err(_) => None,
        },
    }
}

/// The offset stored in `m` reads as `off`: none when nothing is stored.
pub open spec fn stored_offset_is(m: StoreView, off: Option<i64>) -> bool {
    match cell(m, offset_bucket(), offset_key()) {
        None => off is None,
        Some(b) => b.len() == 8 && off == Some(offset_of(b)),
    }
}

/// Starts a cycle: when another poller holds the lock, skips it (`None`);
/// otherwise takes the lock and reads the offset to fetch from. When the
/// offset cannot be read the lock is released again and the error returned.
pub fn begin_cycle(store: &mut KvStore) -> (r: KvStoreResult<Option<(Cas, Option<i64>)>>)
    requires
        old(store).wf(),
    ensures
        final(store).wf(),
        !lock_free(old(store)@) ==> (r matches Ok(None) && final(store)@ == old(store)@),
        lock_free(old(store)@) ==> {
            let held = set_cell(old(store)@, locks_bucket(), lock_key(), locked());
            match r {
                Ok(Some(p)) => {
                    &&& final(store)@ == held
                    &&& stored_offset_is(old(store)@, p.1)
                    &&& p.0.bucket@ == locks_bucket()
                    &&& p.0.key@ == lock_key()
                    &&& seen_view(p.0) == Some(locked())
                },
                Ok(None) => false,
                Err(_) => {
                    &&& !(exists|off: Option<i64>| stored_offset_is(old(store)@, off))
                    &&& final(store)@ == set_cell(held, locks_bucket(), lock_key(), Seq::empty())
                },
            }
        },
{
    let lock = match acquire_lock(store) {
        Ok(c) => c,
        Err(_) => {
            return Ok(None);
        },
    };
    let ghost held = store@;
    assert(cell(held, offset_bucket(), offset_key()) == cell(old(store)@, offset_bucket(), offset_key())) by {
        reveal_strlit("locks");
        reveal_strlit("offsets");
        assert(locks_bucket().len() != offset_bucket().len());
    }
    match get_offset(store) {
        Ok(off) => Ok(Some((lock, off))),
        Err(e) => {
            assert(forall|off: Option<i64>| !stored_offset_is(old(store)@, off));
            match release_lock(store, lock) {
                Ok(()) => Err(e),
                Err(re) => Err(re),
            }
        },
    }
}

/// The store after an update's offset is recorded: one past the update.
pub open spec fn after_update(m: StoreView, update: Option<TelegramUpdate>) -> StoreView {
    match update {
        Some(u) => set_cell(m, offset_bucket(), offset_key(), offset_bytes((u.update_id + 1) as i64)),
        None => m,
    }
}

/// Ends a cycle with the update fetched from the stored offset, if there
/// was one: stores the offset past it first, then turns it into a payload,
/// and releases the lock whatever came of it.
pub fn finish_cycle(store: &mut KvStore, lock: Cas, update: Option<TelegramUpdate>) -> (r:
    KvStoreResult<Option<WavsPayload>>)
    requires
        old(store).wf(),
        update matches Some(u) ==> u.update_id < i64::MAX,
    ensures
        final(store).wf(),
        r is Ok == cas_succeeds(after_update(old(store)@, update), lock.bucket@, lock.key@, seen_view(lock)),
        r matches Ok(p) ==> {
            &&& final(store)@ == set_cell(after_update(old(store)@, update), lock.bucket@, lock.key@, Seq::empty())
            &&& payload_view(p) == match update {
                Some(u) => update_payload(u),
                None => None,
            }
        },
        r is Err ==> final(store)@ == after_update(old(store)@, update),
{
    let command = match update {
        None => None,
        Some(u) => {
            let next = u.update_id + 1;
            let _ = set_offset(store, next);
            match parse_update(u) {
                None => None,
                Some(c) => map_command_to_contract(c),
            }
        },
    };
    release_lock(store, lock)?;
    Ok(command)
}

/// The largest of `ids`, or `floor` when none is larger.
pub open spec fn highest_id(ids: Seq<i64>, floor: i64) -> i64
    decreases ids.len(),
{
    if ids.len() == 0 {
        floor
    } else {
        let h = highest_id(ids.drop_last(), floor);
        if ids.last() > h {
            ids.last()
        } else {
            h
        }
    }
}

/// The offset that skips a batch of updates when purging the feed: one
/// past the highest update id (counting from zero); none for an empty
/// batch, which ends the purge.
pub fn purge_offset(update_ids: &Vec<i64>) -> (r: Option<i64>)
    requires
        forall|k: int| 0 <= k < update_ids@.len() ==> update_ids@[k] < i64::MAX,
    ensures
        update_ids@.len() == 0 ==> r is None,
        update_ids@.len() > 0 ==> r == Some((highest_id(update_ids@, 0) + 1) as i64),
{
    if update_ids.len() == 0 {
        return None;
    }
    let mut highest: i64 = 0;
    let mut i: usize = 0;
    while i < update_ids.len()
        invariant
            i <= update_ids@.len(),
            highest == highest_id(update_ids@.subrange(0, i as int), 0),
            0 <= highest,
            forall|k: int| 0 <= k < update_ids@.len() ==> update_ids@[k] < i64::MAX,
            highest < i64::MAX,
        decreases update_ids.len() - i,
    {
        assert(update_ids@.subrange(0, i + 1).drop_last() =~= update_ids@.subrange(0, i as int));
        if update_ids[i] > highest {
            highest = update_ids[i];
        }
        i = i + 1;
    }
    assert(update_ids@.subrange(0, i as int) =~= update_ids@);
    Some(highest + 1)
}

/// After a cycle that handled update `n` ends, the next cycle reads offset
/// `n + 1`: whatever happens to the lock cell, the stored offset is `n + 1`,
/// so update `n` is never asked for again.
pub proof fn lemma_next_cycle_reads_after(m: StoreView, n: i64, lock_value: Seq<u8>, next_lock: Seq<u8>)
    requires
        n < i64::MAX,
    ensures
        ({
            let stored = set_cell(m, offset_bucket(), offset_key(), offset_bytes((n + 1) as i64));
            let released = set_cell(stored, locks_bucket(), lock_key(), lock_value);
            let reacquired = set_cell(released, locks_bucket(), lock_key(), next_lock);
            &&& stored_offset_is(released, Some((n + 1) as i64))
            &&& stored_offset_is(reacquired, Some((n + 1) as i64))
            &&& offset_of(offset_bytes((n + 1) as i64)) > n
        }),
{
    lemma_offset_round_trip((n + 1) as i64);
    reveal_strlit("locks");
    reveal_strlit("offsets");
    assert(locks_bucket().len() != offset_bucket().len());
}

} // verus!
