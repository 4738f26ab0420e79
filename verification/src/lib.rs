//! An in-memory user-management library: a repository of uniquely
//! identified user records with create/read/update/delete operations,
//! interchangeable text-processing strategies, and a handful of pure
//! utility functions, all with verified contracts.
use vstd::prelude::*;

pub mod repo;
pub mod utils;

pub use repo::User;
pub use repo::UserRepository;
pub use repo::UserView;
pub use repo::lemma_create_then_get;
pub use repo::repo_inv;
pub use repo::updated_view;
pub use utils::CustomError;
pub use utils::calculate_sum;
pub use utils::count_words;
pub use utils::describe_number;
pub use utils::process_data;
pub use utils::reverse_string;
pub use utils::validate_email;

verus! {

/// The uppercase form of a character sequence, as `str::to_uppercase`
/// computes it. The mapping is a function of the characters alone.
pub uninterp spec fn upper_of(s: Seq<char>) -> Seq<char>;

/// The lowercase form of a character sequence, as `str::to_lowercase`
/// computes it. The mapping is a function of the characters alone.
pub uninterp spec fn lower_of(s: Seq<char>) -> Seq<char>;

/// Relies on str::to_uppercase: the result depends on the input
/// characters alone, and an empty input yields an empty result.
#[verifier::external_body]
fn str_to_uppercase(input: &str) -> (r: String)
    ensures
        r@ == upper_of(input@),
        input@.len() == 0 ==> r@.len() == 0,
{
    input.to_uppercase()
}

/// Relies on str::to_lowercase: the result depends on the input
/// characters alone, and an empty input yields an empty result.
#[verifier::external_body]
fn str_to_lowercase(input: &str) -> (r: String)
    ensures
        r@ == lower_of(input@),
        input@.len() == 0 ==> r@.len() == 0,
{
    input.to_lowercase()
}

/// A stateless text-transformation capability. `spec_process` is the
/// mathematical description of the transformation; `process` must
/// realise exactly that function, so every implementation is total and
/// free of side effects.
pub trait StringProcessor {
    spec fn spec_process(&self, input: Seq<char>) -> Seq<char>;

    fn process(&self, input: &str) -> (r: String)
        ensures
            r@ == self.spec_process(input@),
    ;
}

/// Converts text to uppercase.
pub struct UpperCaseProcessor;

impl StringProcessor for UpperCaseProcessor {
    open spec fn spec_process(&self, input: Seq<char>) -> Seq<char> {
        upper_of(input)
    }

    fn process(&self, input: &str) -> (r: String) {
        str_to_uppercase(input)
    }
}

/// Converts text to lowercase.
pub struct LowerCaseProcessor;

impl StringProcessor for LowerCaseProcessor {
    open spec fn spec_process(&self, input: Seq<char>) -> Seq<char> {
        lower_of(input)
    }

    fn process(&self, input: &str) -> (r: String) {
        str_to_lowercase(input)
    }
}

/// Applies any [`StringProcessor`] to `input`. The contract pins the
/// result to the strategy's own transformation, so which implementation
/// is passed makes no behavioural difference at this call site:
/// for every strategy `S` and input `I`,
/// `process_with(S, I) == S.process(I)`.
pub fn process_with<P: StringProcessor>(processor: &P, input: &str) -> (r: String)
    ensures
        r@ == processor.spec_process(input@),
{
    processor.process(input)
}

} // verus!
