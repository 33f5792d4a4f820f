//! Why pricing an order can fail.

use vstd::prelude::*;

verus! {

/// What was being done when an unexpected error came up.
#[derive(Clone, Copy, Debug, PartialEq, Eq, Structural)]
pub enum ErrContext {
    /// Asking the database whether the request is locked.
    CheckRequestLocked,
    /// Reading the configuration.
    ReadConfig,
    /// Reading the largest stake out of the configuration's text.
    ParseMaxStake,
    /// Reading a price per million cycles out of the configuration's text.
    ParseMcyclePrice,
    /// Asking for the current gas price.
    GasPrice,
    /// Anything that is reported without a context of its own.
    Unnamed,
}

impl ErrContext {
    /// The words that introduce the error.
    pub open spec fn words(self) -> Seq<char> {
        match self {
            ErrContext::CheckRequestLocked =>
                "Failed to check if request is locked before pricing"@,
            ErrContext::ReadConfig => "Failed to read config"@,
            ErrContext::ParseMaxStake => "Failed to parse max_stake"@,
            ErrContext::ParseMcyclePrice => "Failed to parse mcycle_price"@,
            ErrContext::GasPrice => "Failed to get gas price"@,
            ErrContext::Unnamed => ""@,
        }
    }

    /// The words that introduce the error; none for [`ErrContext::Unnamed`].
    pub fn text(&self) -> (r: &'static str)
        ensures
            r@ == self.words(),
    {
        match self {
            ErrContext::CheckRequestLocked => "Failed to check if request is locked before pricing",
            ErrContext::ReadConfig => "Failed to read config",
            ErrContext::ParseMaxStake => "Failed to parse max_stake",
            ErrContext::ParseMcyclePrice => "Failed to parse mcycle_price",
            ErrContext::GasPrice => "Failed to get gas price",
            ErrContext::Unnamed => "",
        }
    }
}

/// Errors of the order picker. A `Vec` is a chain of causes, the outermost first.
#[derive(Clone, Debug, PartialEq, Eq)]
#[non_exhaustive]
pub enum OrderPickerErr {
    /// The request's input could not be fetched or handed to the prover.
    FetchInputErr(Vec<String>),
    /// The request's image could not be fetched or handed to the prover.
    FetchImageErr(Vec<String>),
    /// The guest program panicked.
    GuestPanic(String),
    /// The request is invalid.
    RequestError(String),
    /// A call to the chain failed.
    RpcErr(Vec<String>),
    /// Anything else: what was being done, and the causes.
    UnexpectedErr(ErrContext, Vec<String>),
}

/// An error as contracts speak of it, with its texts as sequences of characters.
pub enum OrderPickerErrView {
    FetchInputErr(Seq<Seq<char>>),
    FetchImageErr(Seq<Seq<char>>),
    GuestPanic(Seq<char>),
    RequestError(Seq<char>),
    RpcErr(Seq<Seq<char>>),
    UnexpectedErr(ErrContext, Seq<Seq<char>>),
}

impl View for OrderPickerErr {
    type V = OrderPickerErrView;

    open spec fn view(&self) -> OrderPickerErrView {
        match self {
            OrderPickerErr::FetchInputErr(causes) => OrderPickerErrView::FetchInputErr(
                causes.deep_view(),
            ),
            OrderPickerErr::FetchImageErr(causes) => OrderPickerErrView::FetchImageErr(
                causes.deep_view(),
            ),
            OrderPickerErr::GuestPanic(cause) => OrderPickerErrView::GuestPanic(cause@),
            OrderPickerErr::RequestError(cause) => OrderPickerErrView::RequestError(cause@),
            OrderPickerErr::RpcErr(causes) => OrderPickerErrView::RpcErr(causes.deep_view()),
            OrderPickerErr::UnexpectedErr(context, causes) => OrderPickerErrView::UnexpectedErr(
                *context,
                causes.deep_view(),
            ),
        }
    }
}

/// A result with its error as contracts speak of it.
pub open spec fn result_view<T>(r: Result<T, OrderPickerErr>) -> Result<T, OrderPickerErrView> {
    match r {
        Ok(value) => Ok(value),
        Err(error) => Err(error@),
    }
}

/// `text` with every line after the first moved in by `pad`.
pub open spec fn indented(text: Seq<char>, pad: Seq<char>) -> Seq<char>
    decreases text.len(),
{
    if text.len() == 0 {
        Seq::empty()
    } else {
        indented(text.drop_last(), pad) + seq![text.last()] + (if text.last() == '\n' {
            pad
        } else {
            Seq::empty()
        })
    }
}

/// A decimal digit.
pub open spec fn digit_words(digit: nat) -> Seq<char> {
    "0123456789"@.subrange(digit as int, digit as int + 1)
}

/// A number in decimal.
pub open spec fn decimal_words(number: nat) -> Seq<char>
    decreases number,
{
    if number < 10 {
        digit_words(number)
    } else {
        decimal_words(number / 10) + digit_words(number % 10)
    }
}

/// What moves a number to the right of a column of five.
pub open spec fn number_pad(number: nat) -> Seq<char> {
    if number < 10 {
        "    "@
    } else if number < 100 {
        "   "@
    } else if number < 1000 {
        "  "@
    } else if number < 10000 {
        " "@
    } else {
        ""@
    }
}

/// Some causes as a numbered list, each on a line of its own, counted from zero.
pub open spec fn numbered_words(causes: Seq<Seq<char>>) -> Seq<char>
    decreases causes.len(),
{
    if causes.len() == 0 {
        Seq::empty()
    } else {
        let number = (causes.len() - 1) as nat;
        numbered_words(causes.drop_last()) + "\n"@ + number_pad(number) + decimal_words(number)
            + ": "@ + indented(causes.last(), "       "@)
    }
}

/// What an error is due to: nothing, a single cause, or a numbered list.
pub open spec fn cause_words(causes: Seq<Seq<char>>) -> Seq<char> {
    if causes.len() == 0 {
        Seq::empty()
    } else if causes.len() == 1 {
        "\n\nCaused by:"@ + "\n    "@ + indented(causes[0], "    "@)
    } else {
        "\n\nCaused by:"@ + numbered_words(causes)
    }
}

/// The outermost of a chain of causes.
pub open spec fn outermost_words(causes: Seq<Seq<char>>) -> Seq<char> {
    if causes.len() == 0 {
        Seq::empty()
    } else {
        causes[0]
    }
}

/// A chain of causes: the outermost, and what it is due to.
pub open spec fn chain_words(causes: Seq<Seq<char>>) -> Seq<char> {
    if causes.len() == 0 {
        Seq::empty()
    } else {
        causes[0] + cause_words(causes.drop_first())
    }
}

/// Appends a text with every line after the first moved in.
fn append_indented(out: &mut String, text: &str, pad: &str)
    ensures
        final(out)@ == old(out)@ + indented(text@, pad@),
{
    let len: usize = text.unicode_len();
    let mut i: usize = 0;
    assert(text@.take(0) =~= Seq::empty());
    while i < len
        invariant
            i <= len,
            len == text@.len(),
            out@ =~= old(out)@ + indented(text@.take(i as int), pad@),
        decreases len - i,
    {
        assert(text@.take(i + 1).drop_last() =~= text@.take(i as int));
        let letter = text.substring_char(i, i + 1);
        assert(letter@ =~= seq![text@.take(i + 1).last()]);
        out.append(letter);
        if text.get_char(i) == '\n' {
            out.append(pad);
        }
        i = i + 1;
    }
    assert(text@.take(i as int) =~= text@);
}

/// Appends a number in decimal.
fn append_decimal(out: &mut String, number: usize)
    ensures
        final(out)@ == old(out)@ + decimal_words(number as nat),
    decreases number,
{
    if number >= 10 {
        append_decimal(out, number / 10);
    }
    let digit: usize = number % 10;
    proof {
        reveal_strlit("0123456789");
    }
    out.append("0123456789".substring_char(digit, digit + 1));
    assert(out@ =~= old(out)@ + decimal_words(number as nat));
}

/// Appends what an error is due to: the causes from `first` on.
fn append_causes(out: &mut String, causes: &Vec<String>, first: usize)
    requires
        first <= causes@.len(),
    ensures
        final(out)@ == old(out)@ + cause_words(causes.deep_view().skip(first as int)),
{
    let ghost due_to = causes.deep_view().skip(first as int);
    let len: usize = causes.len();
    let count: usize = len - first;
    if count == 0 {
        assert(out@ =~= old(out)@ + cause_words(due_to));
    } else if count == 1 {
        out.append("\n\nCaused by:");
        out.append("\n    ");
        append_indented(out, causes[first].as_str(), "    ");
        assert(out@ =~= old(out)@ + cause_words(due_to));
    } else {
        out.append("\n\nCaused by:");
        let mut i: usize = 0;
        assert(due_to.take(0) =~= Seq::empty());
        assert(out@ =~= old(out)@ + "\n\nCaused by:"@ + numbered_words(due_to.take(0)));
        while i < count
            invariant
                i <= count,
                len == causes@.len(),
                first <= len,
                count == len - first,
                due_to == causes.deep_view().skip(first as int),
                due_to.len() == count,
                out@ == old(out)@ + "\n\nCaused by:"@ + numbered_words(due_to.take(i as int)),
            decreases count - i,
        {
            assert(due_to.take(i + 1).drop_last() =~= due_to.take(i as int));
            assert(due_to.take(i + 1).last() == causes@[first + i]@);
            out.append("\n");
            out.append(
                if i < 10 {
                    "    "
                } else if i < 100 {
                    "   "
                } else if i < 1000 {
                    "  "
                } else if i < 10000 {
                    " "
                } else {
                    ""
                },
            );
            append_decimal(out, i);
            out.append(": ");
            append_indented(out, causes[first + i].as_str(), "       ");
            assert(out@ =~= old(out)@ + "\n\nCaused by:"@ + numbered_words(due_to.take(i + 1)));
            i = i + 1;
        }
        assert(due_to.take(i as int) =~= due_to);
        assert(out@ =~= old(out)@ + cause_words(due_to));
    }
}

/// Appends the outermost of a chain of causes.
fn append_outermost(out: &mut String, causes: &Vec<String>)
    ensures
        final(out)@ == old(out)@ + outermost_words(causes.deep_view()),
{
    if causes.len() > 0 {
        out.append(causes[0].as_str());
    } else {
        assert(out@ =~= old(out)@ + outermost_words(causes.deep_view()));
    }
}

/// Appends a chain of causes: the outermost, and what it is due to.
fn append_chain(out: &mut String, causes: &Vec<String>)
    ensures
        final(out)@ == old(out)@ + chain_words(causes.deep_view()),
{
    if causes.len() > 0 {
        out.append(causes[0].as_str());
        append_causes(out, causes, 1);
        assert(causes.deep_view().skip(1) =~= causes.deep_view().drop_first());
        assert(out@ =~= old(out)@ + chain_words(causes.deep_view()));
    } else {
        assert(out@ =~= old(out)@ + chain_words(causes.deep_view()));
    }
}

impl OrderPickerErr {
    /// The code of each kind of error.
    pub open spec fn code_words(self) -> Seq<char> {
        match self {
            OrderPickerErr::FetchInputErr(_) => "[B-OP-001]"@,
            OrderPickerErr::FetchImageErr(_) => "[B-OP-002]"@,
            OrderPickerErr::GuestPanic(_) => "[B-OP-003]"@,
            OrderPickerErr::RequestError(_) => "[B-OP-004]"@,
            OrderPickerErr::RpcErr(_) => "[B-OP-005]"@,
            OrderPickerErr::UnexpectedErr(_, _) => "[B-OP-500]"@,
        }
    }

    /// The code of this kind of error.
    pub fn code(&self) -> (r: &'static str)
        ensures
            r@ == self.code_words(),
    {
        match self {
            OrderPickerErr::FetchInputErr(_) => "[B-OP-001]",
            OrderPickerErr::FetchImageErr(_) => "[B-OP-002]",
            OrderPickerErr::GuestPanic(_) => "[B-OP-003]",
            OrderPickerErr::RequestError(_) => "[B-OP-004]",
            OrderPickerErr::RpcErr(_) => "[B-OP-005]",
            OrderPickerErr::UnexpectedErr(_, _) => "[B-OP-500]",
        }
    }

    /// What stands between the code and the error's text.
    pub open spec fn label_words(self) -> Seq<char> {
        match self {
            OrderPickerErr::FetchInputErr(_) => " failed to fetch / push input: "@,
            OrderPickerErr::FetchImageErr(_) => " failed to fetch / push image: "@,
            OrderPickerErr::GuestPanic(_) => " guest panicked: "@,
            OrderPickerErr::RequestError(_) => " invalid request: "@,
            OrderPickerErr::RpcErr(_) => " RPC error: "@,
            OrderPickerErr::UnexpectedErr(_, _) => " Unexpected error: "@,
        }
    }

    /// The error's text: the outermost cause of a failed fetch, the whole chain
    /// of others, with the context where there is one.
    pub open spec fn detail_words(self) -> Seq<char> {
        match self {
            OrderPickerErr::FetchInputErr(causes) => outermost_words(causes.deep_view()),
            OrderPickerErr::FetchImageErr(causes) => outermost_words(causes.deep_view()),
            OrderPickerErr::GuestPanic(cause) => cause@,
            OrderPickerErr::RequestError(cause) => cause@,
            OrderPickerErr::RpcErr(causes) => chain_words(causes.deep_view()),
            OrderPickerErr::UnexpectedErr(context, causes) => if context == ErrContext::Unnamed {
                chain_words(causes.deep_view())
            } else {
                context.words() + cause_words(causes.deep_view())
            },
        }
    }

    /// The error as text: its code, its kind and its detail.
    pub fn message(&self) -> (r: String)
        ensures
            r@ == self.code_words() + self.label_words() + self.detail_words(),
    {
        let mut text = String::new();
        text.append(self.code());
        match self {
            OrderPickerErr::FetchInputErr(causes) => {
                text.append(" failed to fetch / push input: ");
                append_outermost(&mut text, causes);
            },
            OrderPickerErr::FetchImageErr(causes) => {
                text.append(" failed to fetch / push image: ");
                append_outermost(&mut text, causes);
            },
            OrderPickerErr::GuestPanic(cause) => {
                text.append(" guest panicked: ");
                text.append(cause.as_str());
            },
            OrderPickerErr::RequestError(cause) => {
                text.append(" invalid request: ");
                text.append(cause.as_str());
            },
            OrderPickerErr::RpcErr(causes) => {
                text.append(" RPC error: ");
                append_chain(&mut text, causes);
            },
            OrderPickerErr::UnexpectedErr(context, causes) => {
                text.append(" Unexpected error: ");
                if *context == ErrContext::Unnamed {
                    append_chain(&mut text, causes);
                } else {
                    text.append(context.text());
                    assert(causes.deep_view().skip(0) =~= causes.deep_view());
                    append_causes(&mut text, causes, 0);
                }
            },
        }
        assert(text@ =~= self.code_words() + self.label_words() + self.detail_words());
        text
    }
}

} // verus!
