//! The demonstration lines that the command-line entry point prints:
//! each line is built from a library call and carries an exact contract.

use vstd::prelude::*;
use crate::decimal::dec_digits;
use crate::decimal::to_decimal;

verus! {

/// The three demonstration lines of the command-line entry point: a
/// greeting, an addition example, and a factorial example, each stated
/// exactly in terms of the library's own specifications.
pub fn demo_lines() -> (r: Vec<String>)
    ensures
        r@.len() == 3,
        r@[0]@ == "Hello, "@ + "Rust Developer"@ + "!"@,
        r@[1]@ == "2 + 3 = "@ + dec_digits(crate::sum(2, 3) as nat),
        r@[2]@ == "5! = "@ + dec_digits(crate::fact(5)),
{
    let mut lines: Vec<String> = Vec::new();
    lines.push(crate::greet("Rust Developer"));

    let total: i32 = crate::add(2, 3);
    let mut sum_line = String::from_str("2 + 3 = ");
    let total_text = to_decimal(total as u32);
    sum_line.append(total_text.as_str());
    lines.push(sum_line);

    let product: u32 = crate::factorial(5);
    let mut fact_line = String::from_str("5! = ");
    let product_text = to_decimal(product);
    fact_line.append(product_text.as_str());
    lines.push(fact_line);

    lines
}

} // verus!
