use vstd::prelude::*;
use vstd::string::{StrSliceExecFns, StringExecFns};

verus! {

/// `n` spaces.
pub open spec fn spaces(n: nat) -> Seq<char> {
    Seq::new(n, |i: int| ' ')
}

/// Padding of text with spaces up to a wanted length, counted in characters.
pub trait Pad: View<V = Seq<char>> + Sized {
    /// The text followed by as many spaces as make it `des_len` long.
    fn pad(self, des_len: usize) -> (r: Self)
        requires
            self@.len() <= des_len,
        ensures
            r@ == self@ + spaces((des_len - self@.len()) as nat),
    ;

    /// The text centred in `des_len` characters: half of the missing spaces
    /// before it, rounded down, and the rest after it.
    fn pad_c(self, des_len: usize) -> (r: Self)
        requires
            self@.len() <= des_len,
        ensures
            r@ == spaces(((des_len - self@.len()) / 2) as nat) + self@ + spaces(
                ((des_len - self@.len()) / 2 + (des_len - self@.len()) % 2) as nat,
            ),
    ;
}

/// `n` spaces as a string.
fn space_run(n: usize) -> (r: String)
    ensures
        r@ == spaces(n as nat),
{
    let mut r = String::new();
    let mut i: usize = 0;
    while i < n
        invariant
            i <= n,
            r@ == spaces(i as nat),
        decreases n - i,
    {
        proof {
            reveal_strlit(" ");
        }
        r.append(" ");
        i = i + 1;
        assert(r@ =~= spaces(i as nat));
    }
    r
}

impl Pad for String {
    fn pad(self, des_len: usize) -> (r: Self) {
        let diff = des_len - self.as_str().unicode_len();
        let post = space_run(diff);
        self.concat(post.as_str())
    }

    fn pad_c(self, des_len: usize) -> (r: Self) {
        let diff = des_len - self.as_str().unicode_len();
        let pre = space_run(diff / 2);
        let post = space_run(diff / 2 + diff % 2);
        let r = pre.concat(self.as_str());
        r.concat(post.as_str())
    }
}

} // verus!
