//! Rendering a tensor as text: the shape line followed by one line per
//! element giving its ordinal, its coordinate tuple and its value, in
//! row-major order.

use vstd::prelude::*;
use vstd::string::StringExecFns;
use crate::element::Element;
use crate::metadata::coords_seq;
use crate::tensor::Tensor;

verus! {

/// The decimal digit character for one digit value.
pub open spec fn digit_char(d: nat) -> char {
    if d == 0 {
        '0'
    } else if d == 1 {
        '1'
    } else if d == 2 {
        '2'
    } else if d == 3 {
        '3'
    } else if d == 4 {
        '4'
    } else if d == 5 {
        '5'
    } else if d == 6 {
        '6'
    } else if d == 7 {
        '7'
    } else if d == 8 {
        '8'
    } else {
        '9'
    }
}

/// The decimal digits of a natural number, most significant first.
pub open spec fn dec_digits(n: nat) -> Seq<char>
    decreases n,
{
    if n < 10 {
        seq![digit_char(n)]
    } else {
        dec_digits(n / 10).push(digit_char(n % 10))
    }
}

/// The decimal rendering of an integer: a leading minus sign for a
/// negative one.
pub open spec fn dec_int(x: int) -> Seq<char> {
    if x < 0 {
        seq!['-'] + dec_digits((-x) as nat)
    } else {
        dec_digits(x as nat)
    }
}

/// A comma-separated decimal list, the rendering of a dimension vector
/// or a coordinate tuple between its brackets.
pub open spec fn dec_list(s: Seq<usize>) -> Seq<char>
    decreases s.len(),
{
    if s.len() == 0 {
        Seq::empty()
    } else if s.len() == 1 {
        dec_digits(s[0] as nat)
    } else {
        dec_list(s.drop_last()) + ", "@ + dec_digits(s.last() as nat)
    }
}

/// One line of the element listing: the flat ordinal, the coordinate
/// tuple, and the element's value.
pub open spec fn line_chars<T: Element>(dims: Seq<usize>, data: Seq<T>, k: int) -> Seq<char> {
    dec_digits(k as nat) + ": ["@ + dec_list(coords_seq(dims, k)) + "] -> "@ + dec_int(
        data[k].val(),
    ) + "\n"@
}

/// The first `n` lines of the element listing, in row-major order.
pub open spec fn lines_chars<T: Element>(dims: Seq<usize>, data: Seq<T>, n: int) -> Seq<char>
    decreases n,
{
    if n <= 0 {
        Seq::empty()
    } else {
        lines_chars(dims, data, n - 1) + line_chars(dims, data, n - 1)
    }
}

/// The whole rendering: the shape line, the data heading, and one line
/// per element.
pub open spec fn display_chars<T: Element>(dims: Seq<usize>, data: Seq<T>) -> Seq<char> {
    "Shape: ["@ + dec_list(dims) + "]\nData:\n"@ + lines_chars(dims, data, data.len() as int)
}

/// The one-character string for a decimal digit value.
fn digit_str(d: u128) -> (s: &'static str)
    requires
        d < 10,
    ensures
        s@ == seq![digit_char(d as nat)],
{
    proof {
        reveal_strlit("0");
        reveal_strlit("1");
        reveal_strlit("2");
        reveal_strlit("3");
        reveal_strlit("4");
        reveal_strlit("5");
        reveal_strlit("6");
        reveal_strlit("7");
        reveal_strlit("8");
        reveal_strlit("9");
    }
    match d {
        0 => "0",
        1 => "1",
        2 => "2",
        3 => "3",
        4 => "4",
        5 => "5",
        6 => "6",
        7 => "7",
        8 => "8",
        _ => "9",
    }
}

/// Renders a natural number in decimal.
fn nat_dec(n: u128) -> (s: String)
    ensures
        s@ == dec_digits(n as nat),
    decreases n,
{
    if n < 10 {
        String::from_str(digit_str(n))
    } else {
        let mut s = nat_dec(n / 10);
        s.append(digit_str(n % 10));
        proof {
            assert(dec_digits((n / 10) as nat) + seq![digit_char((n % 10) as nat)] =~= dec_digits(
                (n / 10) as nat,
            ).push(digit_char((n % 10) as nat)));
        }
        s
    }
}

/// Renders an integer in decimal, with a minus sign when negative.
fn int_dec(x: i128) -> (s: String)
    requires
        x != i128::MIN,
    ensures
        s@ == dec_int(x as int),
{
    if x < 0 {
        let mut s = String::from_str("-");
        let digits = nat_dec((-x) as u128);
        s.append(digits.as_str());
        proof {
            reveal_strlit("-");
            assert("-"@ =~= seq!['-']);
        }
        s
    } else {
        nat_dec(x as u128)
    }
}

/// Renders a comma-separated decimal list.
fn dec_list_str(values: &[usize]) -> (s: String)
    ensures
        s@ == dec_list(values@),
{
    let n = values.len();
    let mut out = String::new();
    let mut i: usize = 0;
    while i < n
        invariant
            i <= n,
            n == values@.len(),
            out@ == dec_list(values@.subrange(0, i as int)),
        decreases n - i,
    {
        if i > 0 {
            out.append(", ");
        }
        let digits = nat_dec(values[i] as u128);
        out.append(digits.as_str());
        i += 1;
        proof {
            let pre = values@.subrange(0, i as int);
            assert(pre.drop_last() =~= values@.subrange(0, i - 1));
            assert(out@ =~= dec_list(pre));
        }
    }
    proof {
        assert(values@.subrange(0, n as int) =~= values@);
    }
    out
}

impl<T: Element> Tensor<T> {
    /// Renders the tensor as text: a `Shape:` line with the dimension
    /// vector, a `Data:` heading, then one line per element with its
    /// flat ordinal, its coordinate tuple and its value, in row-major
    /// order.
    pub fn display_string(&self) -> (s: String)
        requires
            self.wf(),
        ensures
            s@ == display_chars(self@.dims, self@.data),
    {
        proof {
            self.lemma_size_is_product();
        }
        let mut out = String::from_str("Shape: [");
        let dims_list = dec_list_str(self.metadata.shape());
        out.append(dims_list.as_str());
        out.append("]\nData:\n");
        let ghost header = "Shape: ["@ + dec_list(self@.dims) + "]\nData:\n"@;
        proof {
            assert(out@ =~= header + lines_chars(self@.dims, self@.data, 0));
        }
        let n = self.data.count();
        let mut k: usize = 0;
        while k < n
            invariant
                k <= n,
                self.wf(),
                n == self@.data.len(),
                (n as int) == self.metadata.spec_size(),
                header == "Shape: ["@ + dec_list(self@.dims) + "]\nData:\n"@,
                out@ == header + lines_chars(self@.dims, self@.data, k as int),
            decreases n - k,
        {
            let ordinal = nat_dec(k as u128);
            out.append(ordinal.as_str());
            out.append(": [");
            let coords = self.metadata.coordinates(k);
            let tuple = dec_list_str(coords.as_slice());
            out.append(tuple.as_str());
            out.append("] -> ");
            proof {
                self@.data[k as int].lemma_in_range();
            }
            let value = int_dec((*self.data.access(k)).widened());
            out.append(value.as_str());
            out.append("\n");
            k += 1;
            proof {
                assert(out@ =~= header + lines_chars(self@.dims, self@.data, k as int));
            }
        }
        out
    }
}

} // verus!
