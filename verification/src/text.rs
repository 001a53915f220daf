//! Rendering helpers: decimal numbers, and length-capped assembly of text.
//!
//! Rendered output is capped at a whole-block granularity: blocks are
//! appended while they fit within the cap, and a truncation marker replaces
//! whatever does not fit. A cap never splits a block in the middle.

use vstd::prelude::*;

verus! {

/// The decimal digit character for `d`.
pub open spec fn dec_digit(d: int) -> char {
    if d == 0 {
        '0'
    } else if d == 1 {
        '1'
    } else if d == 2 {
        '2'
    } else if d == 3 {
        '3'
    } else if d == 4 {
        '4'
    } else if d == 5 {
        '5'
    } else if d == 6 {
        '6'
    } else if d == 7 {
        '7'
    } else if d == 8 {
        '8'
    } else {
        '9'
    }
}

/// The decimal rendering of `n`, most significant digit first, no sign and no
/// leading zeros (a single `0` for zero).
pub open spec fn dec_str(n: nat) -> Seq<char>
    decreases n,
{
    if n < 10 {
        seq![dec_digit(n as int)]
    } else {
        dec_str(n / 10) + seq![dec_digit((n % 10) as int)]
    }
}

/// The one-character string for a decimal digit.
fn digit_str(d: u64) -> (r: &'static str)
    requires
        d < 10,
    ensures
        r@ == seq![dec_digit(d as int)],
{
    let r: &'static str = if d == 0 {
        proof {
            reveal_strlit("0");
        }
        "0"
    } else if d == 1 {
        proof {
            reveal_strlit("1");
        }
        "1"
    } else if d == 2 {
        proof {
            reveal_strlit("2");
        }
        "2"
    } else if d == 3 {
        proof {
            reveal_strlit("3");
        }
        "3"
    } else if d == 4 {
        proof {
            reveal_strlit("4");
        }
        "4"
    } else if d == 5 {
        proof {
            reveal_strlit("5");
        }
        "5"
    } else if d == 6 {
        proof {
            reveal_strlit("6");
        }
        "6"
    } else if d == 7 {
        proof {
            reveal_strlit("7");
        }
        "7"
    } else if d == 8 {
        proof {
            reveal_strlit("8");
        }
        "8"
    } else {
        proof {
            reveal_strlit("9");
        }
        "9"
    };
    proof {
        assert(r@ =~= seq![dec_digit(d as int)]);
    }
    r
}

/// The decimal rendering of `n`.
pub fn u64_to_dec(n: u64) -> (r: String)
    ensures
        r@ == dec_str(n as nat),
    decreases n,
{
    let digit = digit_str(n % 10);
    if n < 10 {
        digit.to_owned()
    } else {
        let mut s = u64_to_dec(n / 10);
        s.append(digit);
        s
    }
}

/// Whole-block capped assembly: blocks are appended to the accumulated text
/// while the total stays within the cap; at the first block that does not
/// fit, the marker is appended instead and the rest is dropped.
pub open spec fn spec_assemble(
    acc: Seq<char>,
    blocks: Seq<Seq<char>>,
    cap: int,
    marker: Seq<char>,
) -> Seq<char>
    decreases blocks.len(),
{
    if blocks.len() == 0 {
        acc
    } else if acc.len() + blocks[0].len() <= cap {
        spec_assemble(acc + blocks[0], blocks.drop_first(), cap, marker)
    } else {
        acc + marker
    }
}

/// Assembled text never runs past the cap by more than the marker.
pub proof fn lemma_assemble_capped_len(
    acc: Seq<char>,
    blocks: Seq<Seq<char>>,
    cap: int,
    marker: Seq<char>,
)
    requires
        acc.len() <= cap,
    ensures
        spec_assemble(acc, blocks, cap, marker).len() <= cap + marker.len(),
    decreases blocks.len(),
{
    if blocks.len() > 0 && acc.len() + blocks[0].len() <= cap {
        lemma_assemble_capped_len(acc + blocks[0], blocks.drop_first(), cap, marker);
    }
}

/// The models of a sequence of rendered blocks.
pub open spec fn strings_view(blocks: Seq<String>) -> Seq<Seq<char>> {
    Seq::new(blocks.len(), |i: int| blocks[i]@)
}

/// Append blocks to the header while the whole stays within `cap` characters;
/// at the first block that does not fit, append the marker instead and stop.
#[verifier::loop_isolation(false)]
pub fn assemble_capped(header: String, blocks: &Vec<String>, cap: usize, marker: &str) -> (r:
    String)
    ensures
        r@ == spec_assemble(header@, strings_view(blocks@), cap as int, marker@),
{
    let ghost bv = strings_view(blocks@);
    proof {
        assert(bv.skip(0) =~= bv);
    }
    let mut s = header;
    let mut used = s.as_str().unicode_len();
    let mut idx: usize = 0;
    while idx < blocks.len()
        invariant
            0 <= idx <= blocks.len(),
            used == s@.len(),
            spec_assemble(s@, bv.skip(idx as int), cap as int, marker@) == spec_assemble(
                header@,
                bv,
                cap as int,
                marker@,
            ),
        decreases blocks.len() - idx,
    {
        let bl = blocks[idx].as_str().unicode_len();
        proof {
            assert(bv.skip(idx as int)[0] == bv[idx as int]);
            assert(bv.skip(idx as int).drop_first() =~= bv.skip(idx as int + 1));
        }
        if used <= cap && bl <= cap - used {
            s.append(blocks[idx].as_str());
            used = used + bl;
            idx = idx + 1;
        } else {
            s.append(marker);
            return s;
        }
    }
    proof {
        assert(bv.skip(blocks@.len() as int) =~= Seq::<Seq<char>>::empty());
    }
    s
}

} // verus!
