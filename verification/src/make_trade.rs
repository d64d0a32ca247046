//! What the venue's answer to a submitted order means for the run.

use vstd::prelude::*;

verus! {

/// One entry of the venue's answer to a submitted order. `A` is the number
/// type of the two amounts, which no decision here reads.
#[derive(Debug)]
pub struct OrderResult<A> {
    pub error_msg: Option<String>,
    pub making_amount: A,
    pub taking_amount: A,
    pub order_id: String,
    pub transaction_hashes: Vec<String>,
    pub trade_ids: Vec<String>,
}

/// How one entry of the answer reads.
#[derive(Debug, Clone, Copy, PartialEq, Eq, Structural)]
pub enum Fill {
    /// The entry carries an empty error message: the order went through.
    Confirmed,
    /// The entry carries no error message at all: the order went through.
    Unremarked,
    /// The entry carries an error message that is not empty.
    Refused,
}

/// The venue refused the order: entry `index` of its answer carries the
/// error message `message`, which is not empty.
#[derive(Debug, PartialEq)]
pub struct ExecutionError {
    pub index: usize,
    pub message: String,
}

/// The mathematical value of an [`ExecutionError`].
pub struct ExecutionErrorView {
    pub index: usize,
    pub message: Seq<char>,
}

impl View for ExecutionError {
    type V = ExecutionErrorView;

    open spec fn view(&self) -> ExecutionErrorView {
        ExecutionErrorView { index: self.index, message: self.message@ }
    }
}

impl<A> OrderResult<A> {
    /// How the entry reads.
    pub open spec fn spec_fill(&self) -> Fill {
        match self.error_msg {
            None => Fill::Unremarked,
            Some(message) => if message@.len() == 0 {
                Fill::Confirmed
            } else {
                Fill::Refused
            },
        }
    }

    /// Whether the entry carries an error message that is not empty.
    pub open spec fn refused(&self) -> bool {
        self.spec_fill() == Fill::Refused
    }

    /// How the entry reads.
    #[verifier::when_used_as_spec(spec_fill)]
    pub fn fill(&self) -> (fill: Fill)
        ensures
            fill == self.spec_fill(),
    {
        match &self.error_msg {
            None => Fill::Unremarked,
            Some(message) => if message.as_str().is_empty() {
                Fill::Confirmed
            } else {
                Fill::Refused
            },
        }
    }
}

/// Whether no entry before `index` is refused.
pub open spec fn none_refused_before<A>(posted: Seq<OrderResult<A>>, index: int) -> bool {
    forall|i: int| 0 <= i < index && i < posted.len() ==> !(#[trigger] posted[i]).refused()
}

/// The error that the answer `posted` stands for: that of its first refused
/// entry, if it has one.
pub open spec fn refusal_in<A>(posted: Seq<OrderResult<A>>) -> Option<ExecutionErrorView> {
    if none_refused_before(posted, posted.len() as int) {
        None
    } else {
        let index = choose|i: int|
            0 <= i < posted.len() && (#[trigger] posted[i]).refused() && none_refused_before(
                posted,
                i,
            );
        Some(
            ExecutionErrorView {
                index: index as usize,
                message: posted[index].error_msg.unwrap()@,
            },
        )
    }
}

/// Whether `index` is the place of the first refused entry of `posted`.
pub open spec fn first_refused_at<A>(posted: Seq<OrderResult<A>>, index: int) -> bool {
    0 <= index < posted.len() && posted[index].refused() && none_refused_before(posted, index)
}

/// The first refused entry is the only place that `first_refused_at` holds
/// of, and `refusal_in` reports that entry with its message.
pub proof fn lemma_first_refusal<A>(posted: Seq<OrderResult<A>>, index: int)
    requires
        first_refused_at(posted, index),
    ensures
        refusal_in(posted) == Some(
            ExecutionErrorView {
                index: index as usize,
                message: posted[index].error_msg.unwrap()@,
            },
        ),
{
    assert(!none_refused_before(posted, posted.len() as int));
}

/// Settles one mirrored purchase from the venue's answer to the submitted
/// order. The purchase went through where no entry carries an error message
/// that is not empty; otherwise the first such entry is the error.
pub fn make_trade<A>(posted: &Vec<OrderResult<A>>) -> (settled: Result<(), ExecutionError>)
    ensures
        match settled {
            Ok(()) => refusal_in(posted@) is None && none_refused_before(
                posted@,
                posted.len() as int,
            ),
            Err(e) => {
                &&& refusal_in(posted@) == Some(e@)
                &&& first_refused_at(posted@, e.index as int)
                &&& e.message@ == posted[e.index as int].error_msg.unwrap()@
            },
        },
{
    let mut index: usize = 0;
    while index < posted.len()
        invariant
            index <= posted.len(),
            none_refused_before(posted@, index as int),
        decreases posted.len() - index,
    {
        match &posted[index].error_msg {
            Some(message) => {
                if !message.as_str().is_empty() {
                    proof {
                        lemma_first_refusal(posted@, index as int);
                    }
                    return Err(ExecutionError { index, message: message.clone() });
                }
            },
            None => {},
        }
        index = index + 1;
    }
    Ok(())
}

/// An answer in which some entry carries an error message that is not empty
/// is an error, wherever the entry stands and whatever the others hold.
pub proof fn law_refused_entry_fails_the_trade<A>(posted: Seq<OrderResult<A>>, index: int)
    requires
        0 <= index < posted.len(),
        posted[index].refused(),
    ensures
        refusal_in(posted) is Some,
{
}

/// An answer without an entry that carries a non-empty error message is a
/// success; so is the empty answer.
pub proof fn law_clean_answer_settles<A>(posted: Seq<OrderResult<A>>)
    requires
        forall|i: int| 0 <= i < posted.len() ==> !(#[trigger] posted[i]).refused(),
    ensures
        refusal_in(posted) is None,
{
}

/// The error of an answer is that of its first refused entry: no entry
/// before it is refused, and the message is that entry's own.
pub proof fn law_first_refusal_is_reported<A>(posted: Seq<OrderResult<A>>)
    requires
        refusal_in(posted) is Some,
        posted.len() <= usize::MAX,
    ensures
        first_refused_at(posted, refusal_in(posted).unwrap().index as int),
        refusal_in(posted).unwrap().message == posted[refusal_in(
            posted,
        ).unwrap().index as int].error_msg.unwrap()@,
        refusal_in(posted).unwrap().message.len() > 0,
{
    assert(!none_refused_before(posted, posted.len() as int));
    let witness = choose|i: int|
        0 <= i < posted.len() && i < posted.len() && (#[trigger] posted[i]).refused();
    lemma_exists_first_refusal(posted, witness);
}

/// Below a refused entry there is a first one.
proof fn lemma_exists_first_refusal<A>(posted: Seq<OrderResult<A>>, at: int)
    requires
        0 <= at < posted.len(),
        posted[at].refused(),
    ensures
        exists|i: int|
            0 <= i < posted.len() && (#[trigger] posted[i]).refused() && none_refused_before(
                posted,
                i,
            ),
    decreases at,
{
    if none_refused_before(posted, at) {
    } else {
        let earlier = choose|i: int|
            0 <= i < at && i < posted.len() && (#[trigger] posted[i]).refused();
        lemma_exists_first_refusal(posted, earlier);
    }
}

} // verus!
