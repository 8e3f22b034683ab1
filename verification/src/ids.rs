//! Identifiers that are drawn at random, and the record of what was drawn.
use vstd::prelude::*;

verus! {

/// A lower-case hexadecimal digit.
pub open spec fn is_hex_digit(c: char) -> bool {
    '0' <= c <= '9' || 'a' <= c <= 'f'
}

/// The hyphenated text of a random (version 4) UUID.
pub open spec fn is_random_uuid(text: Seq<char>) -> bool {
    &&& text.len() == 36
    &&& text[8] == '-' && text[13] == '-' && text[18] == '-' && text[23] == '-'
    &&& forall|i: int|
        0 <= i < 36 && i != 8 && i != 13 && i != 18 && i != 23 ==> is_hex_digit(#[trigger] text[i])
    &&& text[14] == '4'
    &&& text[19] == '8' || text[19] == '9' || text[19] == 'a' || text[19] == 'b'
}

/// `uuid::Uuid::new_v4` and `Display` of a `Uuid`: the hyphenated lower-case text of a
/// random UUID. Which one is drawn, that two draws differ, and that the machine has
/// random bytes to give, is left unsaid: it rests on the random source of the machine.
#[verifier::external_body]
fn draw_id() -> (id: String)
    ensures
        is_random_uuid(id@),
{
    uuid::Uuid::new_v4().to_string()
}

/// A source of identifiers. Each identifier is the outcome of a draw of its own.
pub struct IdSource {
    record: Ghost<Seq<Seq<char>>>,
}

impl IdSource {
    /// What was drawn so far, in order.
    pub closed spec fn drawn(self) -> Seq<Seq<char>> {
        self.record@
    }

    /// A source that nothing was drawn from yet.
    pub fn new() -> (source: IdSource)
        ensures
            source.drawn() == Seq::<Seq<char>>::empty(),
    {
        IdSource { record: Ghost(Seq::empty()) }
    }

    /// Draws an identifier.
    pub fn draw(&mut self) -> (id: String)
        ensures
            is_random_uuid(id@),
            final(self).drawn() == old(self).drawn().push(id@),
    {
        let id = draw_id();
        self.record = Ghost(self.record@.push(id@));
        id
    }
}

} // verus!
