//! A small checked-arithmetic calculator with an operation history.
//!
//! Every operation is performed with overflow protection: a result that
//! leaves the `i64` range is reported as `None` and recorded nowhere. The
//! history can be replayed entry by entry and rendered as text, one line per
//! recorded operation.

use vstd::prelude::*;
use vstd::string::StringExecFns;

verus! {

/// The arithmetic operations the calculator supports.
#[derive(Clone, Copy, Debug, PartialEq, Eq, Structural)]
pub enum OperationType {
    Addition,
    Subtraction,
    Multiplication,
}

/// The decimal digit `d` as a character.
pub open spec fn digit_char(d: int) -> char {
    ((48 + d) as u8) as char
}

/// The decimal digits of `n`, most significant first, no sign and no
/// leading zero (a single zero stands for itself).
pub open spec fn dec_digits(n: nat) -> Seq<char>
    decreases n,
{
    if n < 10 {
        seq![digit_char(n as int)]
    } else {
        dec_digits(n / 10).push(digit_char((n % 10) as int))
    }
}

/// The decimal rendering of `v`, with a leading minus sign when negative.
pub open spec fn dec_int(v: int) -> Seq<char> {
    if v < 0 {
        seq!['-'] + dec_digits((-v) as nat)
    } else {
        dec_digits(v as nat)
    }
}

impl OperationType {
    /// The exact mathematical result of the operation, before any range
    /// check.
    pub open spec fn exact(self, x: int, y: int) -> int {
        match self {
            OperationType::Addition => x + y,
            OperationType::Subtraction => x - y,
            OperationType::Multiplication => x * y,
        }
    }

    /// The sign character the operation is written with.
    pub open spec fn sign_char(self) -> char {
        match self {
            OperationType::Addition => '+',
            OperationType::Subtraction => '-',
            OperationType::Multiplication => '*',
        }
    }

    /// The one-character sign of the operation.
    pub fn get_sign(&self) -> (r: &str)
        ensures
            r@ == seq![self.sign_char()],
    {
        proof {
            reveal_strlit("+");
            reveal_strlit("-");
            reveal_strlit("*");
        }
        let r = match self {
            OperationType::Addition => "+",
            OperationType::Subtraction => "-",
            OperationType::Multiplication => "*",
        };
        proof {
            assert(r@ =~= seq![self.sign_char()]);
        }
        r
    }

    /// Performs the operation with overflow protection: the exact result
    /// when it fits in `i64`, `None` otherwise.
    pub fn perform(&self, x: i64, y: i64) -> (r: Option<i64>)
        ensures
            fits_i64(self.exact(x as int, y as int)) ==> r == Some::<i64>(
                self.exact(x as int, y as int) as i64,
            ),
            !fits_i64(self.exact(x as int, y as int)) ==> r is None,
    {
        match self {
            OperationType::Addition => x.checked_add(y),
            OperationType::Subtraction => x.checked_sub(y),
            OperationType::Multiplication => x.checked_mul(y),
        }
    }
}

/// The value lies in the `i64` range.
pub open spec fn fits_i64(v: int) -> bool {
    i64::MIN <= v <= i64::MAX
}

/// One recorded operation: the two operands and the operation applied.
#[derive(Clone, Copy, Debug, PartialEq, Eq, Structural)]
pub struct Operation {
    pub first_num: i64,
    pub second_num: i64,
    pub operation_type: OperationType,
}

impl Operation {
    /// Records the given operands under the given operation.
    pub fn new(first_num: i64, second_num: i64, operation_type: OperationType) -> (r: Self)
        ensures
            r == (Operation { first_num, second_num, operation_type }),
    {
        Self { first_num, second_num, operation_type }
    }
}

/// The text line `show_history` prints for the entry `op` at index `idx`:
/// `"idx: first sign second = result\n"`, where the result falls back to
/// zero for an entry whose replay overflows.
pub open spec fn line_of(idx: int, op: Operation) -> Seq<char> {
    dec_int(idx) + seq![':', ' '] + dec_int(op.first_num as int) + seq![' ']
        + seq![op.operation_type.sign_char()] + seq![' '] + dec_int(op.second_num as int)
        + seq![' ', '=', ' '] + dec_int(
        if fits_i64(op.operation_type.exact(op.first_num as int, op.second_num as int)) {
            op.operation_type.exact(op.first_num as int, op.second_num as int)
        } else {
            0
        },
    ) + seq!['\n']
}

/// The full history rendering: one line per entry, indices counting up
/// from `idx`.
pub open spec fn history_text(ops: Seq<Operation>, idx: int) -> Seq<char>
    decreases ops.len(),
{
    if ops.len() == 0 {
        Seq::<char>::empty()
    } else {
        line_of(idx, ops[0]) + history_text(ops.drop_first(), idx + 1)
    }
}

/// A calculator that keeps a history of every operation that succeeded.
pub struct Calculator {
    pub history: Vec<Operation>,
}

impl Calculator {
    /// A calculator with an empty history.
    pub fn new() -> (r: Self)
        ensures
            r.history@ == Seq::<Operation>::empty(),
    {
        let history: Vec<Operation> = Vec::new();
        Self { history }
    }

    /// Adds the two numbers: the exact sum when it fits in `i64`, recorded
    /// in the history; `None` on overflow, recorded nowhere.
    pub fn addition(&mut self, x: i64, y: i64) -> (r: Option<i64>)
        ensures
            fits_i64(x + y) ==> r == Some::<i64>((x + y) as i64) && final(self).history@ == old(
                self).history@.push(
                (Operation { first_num: x, second_num: y, operation_type: OperationType::Addition }),
            ),
            !fits_i64(x + y) ==> r is None && final(self).history@ == old(self).history@,
    {
        match x.checked_add(y) {
            Some(value) => {
                self.history.push(
                    Operation {
                        first_num: x,
                        second_num: y,
                        operation_type: OperationType::Addition,
                    },
                );
                Some(value)
            },
            None => None,
        }
    }

    /// Subtracts the second number from the first: the exact difference when
    /// it fits in `i64`, recorded in the history; `None` on overflow,
    /// recorded nowhere.
    pub fn subtraction(&mut self, x: i64, y: i64) -> (r: Option<i64>)
        ensures
            fits_i64(x - y) ==> r == Some::<i64>((x - y) as i64) && final(self).history@ == old(
                self).history@.push(
                (Operation {
                    first_num: x,
                    second_num: y,
                    operation_type: OperationType::Subtraction,
                }),
            ),
            !fits_i64(x - y) ==> r is None && final(self).history@ == old(self).history@,
    {
        match x.checked_sub(y) {
            Some(value) => {
                self.history.push(
                    Operation {
                        first_num: x,
                        second_num: y,
                        operation_type: OperationType::Subtraction,
                    },
                );
                Some(value)
            },
            None => None,
        }
    }

    /// Multiplies the two numbers: the exact product when it fits in `i64`,
    /// recorded in the history; `None` on overflow, recorded nowhere.
    pub fn multiplication(&mut self, x: i64, y: i64) -> (r: Option<i64>)
        ensures
            fits_i64(x * y) ==> r == Some::<i64>((x * y) as i64) && final(self).history@ == old(
                self).history@.push(
                (Operation {
                    first_num: x,
                    second_num: y,
                    operation_type: OperationType::Multiplication,
                }),
            ),
            !fits_i64(x * y) ==> r is None && final(self).history@ == old(self).history@,
    {
        match x.checked_mul(y) {
            Some(value) => {
                self.history.push(
                    Operation {
                        first_num: x,
                        second_num: y,
                        operation_type: OperationType::Multiplication,
                    },
                );
                Some(value)
            },
            None => None,
        }
    }

    /// Renders the history, one line per entry:
    /// `"index: first sign second = result\n"`.
    #[verifier::rlimit(100)]
    pub fn show_history(&self) -> (r: String)
        requires
            self.history@.len() <= i32::MAX,
        ensures
            r@ == history_text(self.history@, 0),
    {
        let mut out = String::new();
        let n = self.history.len();
        let mut i: usize = 0;
        proof {
            assert(self.history@.skip(0) =~= self.history@);
            assert(out@ + history_text(self.history@, 0) =~= history_text(self.history@, 0));
        }
        while i < n
            invariant
                n == self.history@.len(),
                0 <= i <= n,
                out@ + history_text(self.history@.skip(i as int), i as int) == history_text(
                    self.history@,
                    0,
                ),
            decreases n - i,
        {
            let item = self.history[i];
            let replayed = item.operation_type.perform(item.first_num, item.second_num);
            let shown: i64 = match replayed {
                Some(v) => v,
                None => 0,
            };
            let ghost before = out@;
            out.append(dec_usize(i).as_str());
            out.append(": ");
            out.append(dec_i64(item.first_num).as_str());
            out.append(" ");
            out.append(item.operation_type.get_sign());
            out.append(" ");
            out.append(dec_i64(item.second_num).as_str());
            out.append(" = ");
            out.append(dec_i64(shown).as_str());
            out.append("\n");
            proof {
                reveal_strlit(": ");
                reveal_strlit(" ");
                reveal_strlit(" = ");
                reveal_strlit("\n");
                assert(out@ =~= before + line_of(i as int, self.history@[i as int]));
                assert(history_text(self.history@.skip(i as int), i as int) == line_of(
                    i as int,
                    self.history@[i as int],
                ) + history_text(self.history@.skip(i as int + 1), i as int + 1)) by {
                    assert(self.history@.skip(i as int)[0] == self.history@[i as int]);
                    assert(self.history@.skip(i as int).drop_first() =~= self.history@.skip(
                        i as int + 1,
                    ));
                }
                assert(out@ + history_text(self.history@.skip(i as int + 1), i as int + 1)
                    =~= history_text(self.history@, 0));
            }
            i = i + 1;
        }
        proof {
            assert(self.history@.skip(n as int) =~= Seq::<Operation>::empty());
            assert(out@ =~= history_text(self.history@, 0));
        }
        out
    }

    /// Replays the history entry at the given index: appends a copy of it to
    /// the history and returns its (overflow-checked) result. An index
    /// outside the history returns `None` and records nothing.
    pub fn repeat(&mut self, operation_index: usize) -> (r: Option<i64>)
        ensures
            operation_index < old(self).history@.len() ==> final(self).history@ == old(
                self).history@.push(old(self).history@[operation_index as int]),
            operation_index < old(self).history@.len() ==> {
                let op = old(self).history@[operation_index as int];
                &&& fits_i64(op.operation_type.exact(op.first_num as int, op.second_num as int))
                    ==> r == Some::<i64>(
                    op.operation_type.exact(op.first_num as int, op.second_num as int) as i64,
                )
                &&& !fits_i64(op.operation_type.exact(op.first_num as int, op.second_num as int))
                    ==> r is None
            },
            operation_index >= old(self).history@.len() ==> r is None && final(self).history@
                == old(self).history@,
    {
        if operation_index < self.history.len() {
            let op = self.history[operation_index];
            self.history.push(op);
            op.operation_type.perform(op.first_num, op.second_num)
        } else {
            None
        }
    }

    /// Empties the history.
    pub fn clear_history(&mut self)
        ensures
            final(self).history@ == Seq::<Operation>::empty(),
    {
        self.history.clear();
    }
}

/// The decimal rendering of an unsigned number.
fn dec_u64(n: u64) -> (r: String)
    ensures
        r@ == dec_digits(n as nat),
    decreases n,
{
    if n < 10 {
        String::from_str(digit_str(n))
    } else {
        let mut s = dec_u64(n / 10);
        s.append(digit_str(n % 10));
        s
    }
}

/// The decimal rendering of an index.
fn dec_usize(n: usize) -> (r: String)
    ensures
        r@ == dec_int(n as int),
{
    dec_u64(n as u64)
}

/// The decimal rendering of a signed number.
fn dec_i64(v: i64) -> (r: String)
    ensures
        r@ == dec_int(v as int),
{
    if v >= 0 {
        dec_u64(v as u64)
    } else {
        let magnitude: u64 = if v == i64::MIN {
            9223372036854775808u64
        } else {
            (-v) as u64
        };
        proof {
            reveal_strlit("-");
        }
        let mut s = String::from_str("-");
        s.append(dec_u64(magnitude).as_str());
        proof {
            assert(s@ =~= dec_int(v as int));
        }
        s
    }
}

/// The one-character text of a decimal digit.
fn digit_str(d: u64) -> (r: &'static str)
    requires
        d < 10,
    ensures
        r@ == seq![digit_char(d as int)],
{
    proof {
        reveal_strlit("0");
        reveal_strlit("1");
        reveal_strlit("2");
        reveal_strlit("3");
        reveal_strlit("4");
        reveal_strlit("5");
        reveal_strlit("6");
        reveal_strlit("7");
        reveal_strlit("8");
        reveal_strlit("9");
    }
    let r = if d == 0 {
        "0"
    } else if d == 1 {
        "1"
    } else if d == 2 {
        "2"
    } else if d == 3 {
        "3"
    } else if d == 4 {
        "4"
    } else if d == 5 {
        "5"
    } else if d == 6 {
        "6"
    } else if d == 7 {
        "7"
    } else if d == 8 {
        "8"
    } else {
        "9"
    };
    proof {
        assert(r@ =~= seq![digit_char(d as int)]);
    }
    r
}

} // verus!
