//! Device-tree nodes as plain values: a path and its properties, for the
//! blob writer to lay out.

use vstd::prelude::*;
use vstd::string::StringExecFns;

verus! {

/// The value of a device-tree property.
#[derive(Clone, Debug)]
pub enum FdtValue {
    /// A property without a value.
    Empty,
    U32(u32),
    U64(u64),
    Str(&'static str),
    /// A list of 32-bit cells.
    Cells32(Vec<u32>),
    /// A list of 64-bit values.
    Cells64(Vec<u64>),
}

/// A device-tree property: its name and value.
#[derive(Clone, Debug)]
pub struct FdtProperty {
    pub name: &'static str,
    pub value: FdtValue,
}

/// A device-tree node: its full path and its properties, in order.
pub struct FdtNode {
    pub path: String,
    pub props: Vec<FdtProperty>,
}

/// Property `p` is called `name` and holds the 32-bit cell `v`.
pub open spec fn prop_u32(p: FdtProperty, name: Seq<char>, v: u32) -> bool {
    p.name@ == name && p.value == FdtValue::U32(v)
}

/// Property `p` is called `name` and holds the 64-bit value `v`.
pub open spec fn prop_u64(p: FdtProperty, name: Seq<char>, v: u64) -> bool {
    p.name@ == name && p.value == FdtValue::U64(v)
}

/// Property `p` is called `name` and holds the string `s`.
pub open spec fn prop_str(p: FdtProperty, name: Seq<char>, s: Seq<char>) -> bool {
    p.name@ == name && (p.value matches FdtValue::Str(t) && t@ == s)
}

/// Property `p` is called `name` and holds the 32-bit cells `v`.
pub open spec fn prop_cells32(p: FdtProperty, name: Seq<char>, v: Seq<u32>) -> bool {
    p.name@ == name && (p.value matches FdtValue::Cells32(c) && c@ == v)
}

/// Property `p` is called `name` and holds the 64-bit values `v`.
pub open spec fn prop_cells64(p: FdtProperty, name: Seq<char>, v: Seq<u64>) -> bool {
    p.name@ == name && (p.value matches FdtValue::Cells64(c) && c@ == v)
}

/// Property `p` is called `name` and holds no value.
pub open spec fn prop_empty(p: FdtProperty, name: Seq<char>) -> bool {
    p.name@ == name && p.value is Empty
}

/// The lower-case hexadecimal digit character of `d`, below sixteen.
pub open spec fn hex_char(d: int) -> char {
    seq!['0', '1', '2', '3', '4', '5', '6', '7', '8', '9', 'a', 'b', 'c', 'd', 'e', 'f'][d % 16]
}

/// The lower-case hexadecimal digits of `n`, without leading zeros.
pub open spec fn hex_spec(n: nat) -> Seq<char>
    decreases n,
{
    if n < 16 {
        seq![hex_char(n as int)]
    } else {
        hex_spec(n / 16).push(hex_char(n as int % 16))
    }
}

/// The one-character text of hexadecimal digit `d`.
fn hex_digit_str(d: u64) -> (r: &'static str)
    requires
        d < 16,
    ensures
        r@ == seq![hex_char(d as int)],
{
    proof {
        reveal_strlit("0");
        reveal_strlit("1");
        reveal_strlit("2");
        reveal_strlit("3");
        reveal_strlit("4");
        reveal_strlit("5");
        reveal_strlit("6");
        reveal_strlit("7");
        reveal_strlit("8");
        reveal_strlit("9");
        reveal_strlit("a");
        reveal_strlit("b");
        reveal_strlit("c");
        reveal_strlit("d");
        reveal_strlit("e");
        reveal_strlit("f");
    }
    let r = match d {
        0 => "0",
        1 => "1",
        2 => "2",
        3 => "3",
        4 => "4",
        5 => "5",
        6 => "6",
        7 => "7",
        8 => "8",
        9 => "9",
        10 => "a",
        11 => "b",
        12 => "c",
        13 => "d",
        14 => "e",
        _ => "f",
    };
    proof {
        assert(r@ =~= seq![hex_char(d as int)]);
    }
    r
}

/// Appends the hexadecimal digits of `n` to `s`.
pub fn push_hex(s: &mut String, n: u64)
    ensures
        final(s)@ == old(s)@ + hex_spec(n as nat),
    decreases n,
{
    if n >= 16 {
        push_hex(s, n / 16);
    }
    s.append(hex_digit_str(n % 16));
    proof {
        if n >= 16 {
            assert(old(s)@ + hex_spec(n as nat / 16) + seq![hex_char(n as int % 16)] =~= old(s)@
                + hex_spec(n as nat));
        } else {
            assert(old(s)@ + seq![hex_char(n as int % 16)] =~= old(s)@ + hex_spec(n as nat));
        }
    }
}

} // verus!
