//! The fixed-capacity collections of `heapless` that the firmware keeps its
//! servo lists, command words and packet parameters in.
use vstd::prelude::*;

verus! {

/// Maximum number of servos tracked on the bus. Plenty for the current limit
/// of the driver board.
pub const MAX_SERVOS: usize = 16;

/// Parameter bytes of the largest synchronous write: start address, bytes per
/// servo, then eight bytes for each servo.
pub const MAX_SYNC_PARAMS: usize = 130;

/// Words kept of one console line.
pub const MAX_WORDS: usize = 32;

#[verifier::external_type_specification]
#[verifier::external_body]
#[verifier::reject_recursive_types(T)]
pub struct ExHeaplessVec<T, const N: usize>(heapless::Vec<T, N>);

/// Discovered servo IDs, in the order in which they answered.
pub type ServoList = heapless::Vec<u8, MAX_SERVOS>;

/// One target of a synchronous move: servo, position, speed, acceleration.
pub type Move = (u8, u16, u16, u8);

/// Targets of one synchronous move.
pub type MoveList = heapless::Vec<Move, MAX_SERVOS>;

/// Parameters of one synchronous write.
pub type SyncParams = heapless::Vec<u8, MAX_SYNC_PARAMS>;

// -- Servo lists -------------------------------------------------------------

/// The IDs held by a servo list, in order.
pub uninterp spec fn servo_ids(list: ServoList) -> Seq<u8>;

/// `heapless::Vec::clear`: removes every item.
#[verifier::external_body]
pub(crate) fn servo_list_clear(list: &mut ServoList)
    ensures
        servo_ids(*final(list)) == Seq::<u8>::empty(),
{
    list.clear()
}

/// `heapless::Vec::push`: appends the item while there is room; a full list is
/// left as it is and the item is handed back.
#[verifier::external_body]
pub(crate) fn servo_list_push(list: &mut ServoList, id: u8) -> (r: Result<(), u8>)
    ensures
        match r {
            Ok(_) => servo_ids(*old(list)).len() < MAX_SERVOS && servo_ids(*final(list)) == servo_ids(*old(list)).push(id),
            Err(back) => servo_ids(*old(list)).len() >= MAX_SERVOS && back == id && servo_ids(*final(list)) == servo_ids(*old(list)),
        },
{
    list.push(id)
}

/// `heapless::Vec::is_full`: whether the capacity is used up.
#[verifier::external_body]
pub(crate) fn servo_list_is_full(list: &ServoList) -> (r: bool)
    ensures
        r == (servo_ids(*list).len() >= MAX_SERVOS),
{
    list.is_full()
}

/// `heapless::Vec::as_slice`: all items in order, never more than the
/// capacity.
#[verifier::external_body]
pub(crate) fn servo_list_as_slice(list: &ServoList) -> (r: &[u8])
    ensures
        r@ == servo_ids(*list),
        r@.len() <= MAX_SERVOS,
{
    list.as_slice()
}

// -- Synchronous moves -------------------------------------------------------

/// The targets held by a move list, in order.
pub uninterp spec fn move_items(list: MoveList) -> Seq<Move>;

/// `heapless::Vec::new`: an empty list.
#[verifier::external_body]
pub(crate) fn move_list_new() -> (r: MoveList)
    ensures
        move_items(r) == Seq::<Move>::empty(),
{
    heapless::Vec::new()
}

/// `heapless::Vec::push`: appends the item while there is room; a full list is
/// left as it is and the item is handed back.
#[verifier::external_body]
pub(crate) fn move_list_push(list: &mut MoveList, item: Move) -> (r: Result<(), Move>)
    ensures
        match r {
            Ok(_) => move_items(*old(list)).len() < MAX_SERVOS && move_items(*final(list)) == move_items(*old(list)).push(item),
            Err(back) => move_items(*old(list)).len() >= MAX_SERVOS && back == item && move_items(*final(list)) == move_items(*old(list)),
        },
{
    list.push(item)
}

/// `heapless::Vec::as_slice`: all items in order, never more than the
/// capacity.
#[verifier::external_body]
pub(crate) fn move_list_as_slice(list: &MoveList) -> (r: &[Move])
    ensures
        r@ == move_items(*list),
        r@.len() <= MAX_SERVOS,
{
    list.as_slice()
}

// -- Packet parameters -------------------------------------------------------

/// The bytes held by a parameter buffer, in order.
pub uninterp spec fn param_bytes(list: SyncParams) -> Seq<u8>;

/// `heapless::Vec::new`: an empty buffer.
#[verifier::external_body]
pub(crate) fn params_new() -> (r: SyncParams)
    ensures
        param_bytes(r) == Seq::<u8>::empty(),
{
    heapless::Vec::new()
}

/// `heapless::Vec::push`: appends the byte while there is room; a full buffer
/// is left as it is and the byte is handed back.
#[verifier::external_body]
pub(crate) fn params_push(list: &mut SyncParams, byte: u8) -> (r: Result<(), u8>)
    ensures
        match r {
            Ok(_) => param_bytes(*old(list)).len() < MAX_SYNC_PARAMS && param_bytes(*final(list)) == param_bytes(*old(list)).push(byte),
            Err(back) => param_bytes(*old(list)).len() >= MAX_SYNC_PARAMS && back == byte && param_bytes(*final(list)) == param_bytes(*old(list)),
        },
{
    list.push(byte)
}

/// `heapless::Vec::as_slice`: all bytes in order, never more than the
/// capacity.
#[verifier::external_body]
pub(crate) fn params_as_slice(list: &SyncParams) -> (r: &[u8])
    ensures
        r@ == param_bytes(*list),
        r@.len() <= MAX_SYNC_PARAMS,
{
    list.as_slice()
}

// -- Words -------------------------------------------------------------------

/// The texts held by a list of words, in order.
pub uninterp spec fn word_texts(list: heapless::Vec<&str, MAX_WORDS>) -> Seq<Seq<char>>;

/// `heapless::Vec::new`: an empty list.
#[verifier::external_body]
pub(crate) fn words_new<'a>() -> (r: heapless::Vec<&'a str, MAX_WORDS>)
    ensures
        word_texts(r) == Seq::<Seq<char>>::empty(),
{
    heapless::Vec::new()
}

/// `heapless::Vec::push`: appends the word while there is room; a full list is
/// left as it is and the word is handed back.
#[verifier::external_body]
pub(crate) fn words_push<'a>(list: &mut heapless::Vec<&'a str, MAX_WORDS>, word: &'a str) -> (r: Result<(), &'a str>)
    ensures
        match r {
            Ok(_) => word_texts(*old(list)).len() < MAX_WORDS && word_texts(*final(list)) == word_texts(*old(list)).push(word@),
            Err(back) => word_texts(*old(list)).len() >= MAX_WORDS && back == word && word_texts(*final(list)) == word_texts(*old(list)),
        },
{
    list.push(word)
}

/// `heapless::Vec::as_slice`: all words in order, never more than the
/// capacity.
#[verifier::external_body]
pub(crate) fn words_as_slice<'a, 'b>(list: &'b heapless::Vec<&'a str, MAX_WORDS>) -> (r: &'b [&'a str])
    ensures
        r@.map_values(|w: &str| w@) == word_texts(*list),
        r@.len() <= MAX_WORDS,
{
    list.as_slice()
}

} // verus!
