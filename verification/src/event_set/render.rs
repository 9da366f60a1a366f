//! The text form of a sample: each event as `name: value `, in order.

use crate::event_set::sample::Sample;
use vstd::prelude::*;
use vstd::string::StringExecFns;

verus! {

/// The character of a decimal digit.
pub open spec fn digit(d: nat) -> char {
    if d == 0 {
        '0'
    } else if d == 1 {
        '1'
    } else if d == 2 {
        '2'
    } else if d == 3 {
        '3'
    } else if d == 4 {
        '4'
    } else if d == 5 {
        '5'
    } else if d == 6 {
        '6'
    } else if d == 7 {
        '7'
    } else if d == 8 {
        '8'
    } else {
        '9'
    }
}

/// The decimal digits of a natural number, without leading zeros.
pub open spec fn digits(n: nat) -> Seq<char>
    decreases n,
{
    if n < 10 {
        seq![digit(n)]
    } else {
        digits(n / 10).push(digit(n % 10))
    }
}

/// The decimal text of an integer: a minus sign if it is negative, then the
/// digits of its magnitude.
pub open spec fn decimal(value: int) -> Seq<char> {
    if value < 0 {
        seq!['-'] + digits((-value) as nat)
    } else {
        digits(value as nat)
    }
}

/// The text of a list of named values: for each, in order, the name, a
/// colon, a space, the decimal text of the value, and a space.
pub open spec fn rendered(pairs: Seq<(Seq<char>, i64)>) -> Seq<char>
    decreases pairs.len(),
{
    if pairs.len() == 0 {
        Seq::empty()
    } else {
        rendered(pairs.drop_last()) + pairs.last().0 + seq![':', ' '] + decimal(
            pairs.last().1 as int,
        ) + seq![' ']
    }
}

/// The text of one decimal digit.
fn digit_text(d: u64) -> (r: &'static str)
    requires
        d < 10,
    ensures
        r@ == seq![digit(d as nat)],
{
    proof {
        reveal_strlit("0");
        reveal_strlit("1");
        reveal_strlit("2");
        reveal_strlit("3");
        reveal_strlit("4");
        reveal_strlit("5");
        reveal_strlit("6");
        reveal_strlit("7");
        reveal_strlit("8");
        reveal_strlit("9");
    }
    let text = if d == 0 {
        "0"
    } else if d == 1 {
        "1"
    } else if d == 2 {
        "2"
    } else if d == 3 {
        "3"
    } else if d == 4 {
        "4"
    } else if d == 5 {
        "5"
    } else if d == 6 {
        "6"
    } else if d == 7 {
        "7"
    } else if d == 8 {
        "8"
    } else {
        "9"
    };
    assert(text@ =~= seq![digit(d as nat)]);
    text
}

/// The digits of `n`, the last one first.
fn reversed_digits(n: u64) -> (r: Vec<u64>)
    ensures
        r.len() >= 1,
        forall|i: int| 0 <= i < r.len() ==> r[i] < 10,
        digits(n as nat) == Seq::new(r.len() as nat, |i: int| digit(r[r.len() - 1 - i] as nat)),
{
    let mut stack: Vec<u64> = Vec::new();
    let mut rest = n;
    while rest >= 10
        invariant
            forall|i: int| 0 <= i < stack.len() ==> stack[i] < 10,
            digits(n as nat) == digits(rest as nat) + Seq::new(
                stack.len() as nat,
                |i: int| digit(stack[stack.len() - 1 - i] as nat),
            ),
        decreases rest,
    {
        let ghost before = stack@;
        let ghost tail = Seq::new(
            before.len() as nat,
            |i: int| digit(before[before.len() - 1 - i] as nat),
        );
        stack.push(rest % 10);
        assert(digits(rest as nat) == digits((rest / 10) as nat).push(digit((rest % 10) as nat)));
        assert(digits((rest / 10) as nat).push(digit((rest % 10) as nat)) + tail =~= digits(
            (rest / 10) as nat,
        ) + Seq::new(stack.len() as nat, |i: int| digit(stack[stack.len() - 1 - i] as nat)));
        rest = rest / 10;
    }
    let ghost before = stack@;
    stack.push(rest);
    assert(digits(rest as nat) + Seq::new(
        before.len() as nat,
        |i: int| digit(before[before.len() - 1 - i] as nat),
    ) =~= Seq::new(stack.len() as nat, |i: int| digit(stack[stack.len() - 1 - i] as nat)));
    stack
}

/// Appends the decimal text of `value` to `text`.
fn append_decimal(text: &mut String, value: i64)
    ensures
        final(text)@ == old(text)@ + decimal(value as int),
{
    let magnitude: u64 = if value < 0 {
        proof {
            reveal_strlit("-");
        }
        text.append("-");
        assert(text@ =~= old(text)@ + seq!['-']);
        (0 - value as i128) as u64
    } else {
        value as u64
    };
    let ghost start = text@;
    let stack = reversed_digits(magnitude);
    let ghost all = digits(magnitude as nat);
    let mut left = stack.len();
    while left > 0
        invariant
            left <= stack.len(),
            forall|i: int| 0 <= i < stack.len() ==> stack[i] < 10,
            all == Seq::new(stack.len() as nat, |i: int| digit(stack[stack.len() - 1 - i] as nat)),
            text@ == start + all.take(stack.len() - left),
        decreases left,
    {
        left -= 1;
        text.append(digit_text(stack[left]));
        assert(text@ =~= start + all.take(stack.len() - left));
    }
    assert(all.take(stack.len() as int) =~= all);
    assert(text@ =~= old(text)@ + decimal(value as int));
}

impl Sample {
    /// The text of the sample with its events called `names`: for each name,
    /// in order, the name, a colon, a space, the decimal text of the value at
    /// its index, and a space.
    pub fn render(&self, names: &Vec<String>) -> (r: String)
        ensures
            r@ == rendered(self@.pairs(names.deep_view())),
    {
        let values = self.values();
        let ghost pairs = self@.pairs(names.deep_view());
        let mut text = String::new();
        let mut i: usize = 0;
        assert(pairs.take(0) =~= Seq::empty());
        while i < names.len() && i < values.len()
            invariant
                i <= names.len(),
                i <= values.len(),
                values@ == self@.values,
                pairs == self@.pairs(names.deep_view()),
                text@ == rendered(pairs.take(i as int)),
            decreases names.len() - i,
        {
            proof {
                reveal_strlit(": ");
                reveal_strlit(" ");
            }
            let ghost before = text@;
            let ghost upto = pairs.take(i + 1);
            assert(upto.drop_last() =~= pairs.take(i as int));
            assert(upto.last() == (names[i as int]@, values[i as int]));
            text.append(names[i].as_str());
            text.append(": ");
            assert(text@ =~= before + names[i as int]@ + seq![':', ' ']);
            append_decimal(&mut text, values[i]);
            text.append(" ");
            assert(text@ =~= before + names[i as int]@ + seq![':', ' '] + decimal(
                values[i as int] as int,
            ) + seq![' ']);
            i += 1;
        }
        assert(pairs.take(i as int) =~= pairs);
        text
    }
}

} // verus!
