//! Small helpers shared with the embedding layer.
use crate::PLAYER_NAME_SIZE;
use vstd::prelude::*;

verus! {

/// A name stretched or cut to exactly the label width: the string's own
/// characters first, space-padded past its end.
pub open spec fn padded_chars(s: Seq<char>) -> Seq<char> {
    Seq::new(PLAYER_NAME_SIZE as nat, |i: int| if i < s.len() {
        s[i]
    } else {
        ' '
    })
}

/// A fixed-width name label from a string: the first characters of the
/// string, padded with spaces to the label width.
pub fn string_to_char_array(s: &str) -> (r: [char; PLAYER_NAME_SIZE])
    ensures
        r@ == padded_chars(s@),
{
    let mut arr: [char; PLAYER_NAME_SIZE] = [' '; PLAYER_NAME_SIZE];
    let n: usize = s.unicode_len();
    let mut i: usize = 0;
    while i < PLAYER_NAME_SIZE
        invariant
            i <= PLAYER_NAME_SIZE,
            n == s@.len(),
            arr@.len() == PLAYER_NAME_SIZE,
            forall|j: int| 0 <= j < i ==> arr@[j] == padded_chars(s@)[j],
            forall|j: int| i <= j < PLAYER_NAME_SIZE ==> arr@[j] == ' ',
        decreases PLAYER_NAME_SIZE - i,
    {
        if i < n {
            arr[i] = s.get_char(i);
        }
        i += 1;
    }
    proof {
        assert(arr@ =~= padded_chars(s@));
    }
    arr
}

} // verus!
