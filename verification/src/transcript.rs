//! How the results of the recognition are shown: a final result on a line of its own, and
//! an interim one in a line that the next result takes over.
use crate::text::{
    same, texts, trim, trimmed, trimmed_end, trimmed_start, white_space,
};
use vstd::prelude::*;

verus! {

/// A result of the recognition: its transcripts, the likeliest first.
#[derive(Debug)]
pub struct RecognitionResult {
    pub transcripts: Vec<String>,
    pub is_final: bool,
}

/// What a [`RecognitionResult`] holds.
pub struct RecognitionResultView {
    pub transcripts: Seq<Seq<char>>,
    pub is_final: bool,
}

impl View for RecognitionResult {
    type V = RecognitionResultView;

    open spec fn view(&self) -> RecognitionResultView {
        RecognitionResultView {
            transcripts: texts(self.transcripts@),
            is_final: self.is_final,
        }
    }
}

/// What is on the line: the interim transcript, or nothing.
#[derive(Debug)]
pub struct TranscriptPrinter {
    pub last_partial: String,
}

/// A piece of text to print, and what is said where it cannot be printed.
#[derive(Debug)]
pub struct Printed {
    pub text: String,
    pub failure: String,
}

/// What a [`Printed`] holds.
pub struct PrintedView {
    pub text: Seq<char>,
    pub failure: Seq<char>,
}

impl View for Printed {
    type V = PrintedView;

    open spec fn view(&self) -> PrintedView {
        PrintedView { text: self.text@, failure: self.failure@ }
    }
}

/// What a list of pieces holds.
pub open spec fn all_printed(pieces: Seq<Printed>) -> Seq<PrintedView> {
    pieces.map_values(|p: Printed| p@)
}

/// What takes the cursor to the start of the line and clears the line.
pub open spec fn clear_line() -> Seq<char> {
    "\r\x1b[2K"@
}

/// What a result shows: the likeliest transcript, without white space around it.
pub open spec fn shown(result: RecognitionResultView) -> Seq<char> {
    if result.transcripts.len() > 0 {
        trimmed(result.transcripts[0])
    } else {
        seq![]
    }
}

/// The interim transcript on the line after a result.
pub open spec fn line_after(last: Seq<char>, result: RecognitionResultView) -> Seq<char> {
    if shown(result).len() == 0 {
        last
    } else if result.is_final {
        seq![]
    } else {
        shown(result)
    }
}

/// What is printed of a result: nothing of a blank one, and nothing of an interim one that
/// is on the line already.
pub open spec fn printed_of(last: Seq<char>, result: RecognitionResultView) -> Option<PrintedView> {
    let transcript = shown(result);
    if transcript.len() == 0 {
        None
    } else if result.is_final {
        let erased = if last.len() > 0 {
            clear_line()
        } else {
            seq![]
        };
        Some(
            PrintedView {
                text: erased + "[final] "@ + transcript + "\n"@,
                failure: "failed to flush final transcript"@,
            },
        )
    } else if transcript != last {
        Some(
            PrintedView {
                text: clear_line() + "[partial] "@ + transcript,
                failure: "failed to flush partial transcript"@,
            },
        )
    } else {
        None
    }
}

/// The interim transcript on the line after a list of results.
pub open spec fn line_after_all(last: Seq<char>, results: Seq<RecognitionResultView>) -> Seq<char>
    decreases results.len(),
{
    if results.len() == 0 {
        last
    } else {
        line_after(line_after_all(last, results.drop_last()), results.last())
    }
}

/// What is printed of a list of results, one after the other.
pub open spec fn printed_of_all(
    last: Seq<char>,
    results: Seq<RecognitionResultView>,
) -> Seq<PrintedView>
    decreases results.len(),
{
    if results.len() == 0 {
        seq![]
    } else {
        let before = printed_of_all(last, results.drop_last());
        match printed_of(line_after_all(last, results.drop_last()), results.last()) {
            Some(printed) => before.push(printed),
            None => before,
        }
    }
}

impl TranscriptPrinter {
    /// A printer with an empty line.
    pub fn new() -> (r: TranscriptPrinter)
        ensures
            r.last_partial@.len() == 0,
    {
        TranscriptPrinter { last_partial: String::new() }
    }

    /// Takes a result, and says what to print.
    pub fn on_result(&mut self, result: &RecognitionResult) -> (r: Option<Printed>)
        ensures
            final(self).last_partial@ == line_after(old(self).last_partial@, result@),
            match r {
                Some(printed) => Some(printed@),
                None => None,
            } == printed_of(old(self).last_partial@, result@),
            result.transcripts@.len() == 0 || trimmed(result.transcripts@[0]@).len() == 0 ==> r is None
                && final(self).last_partial@ == old(self).last_partial@,
            result.transcripts@.len() > 0 && trimmed(result.transcripts@[0]@).len() > 0
                && result.is_final ==> {
                &&& r matches Some(printed) && printed.text@ == (if old(self).last_partial@.len()
                    > 0 {
                    "\r\x1b[2K"@
                } else {
                    seq![]
                }) + "[final] "@ + trimmed(result.transcripts@[0]@) + "\n"@
                &&& final(self).last_partial@.len() == 0
            },
            result.transcripts@.len() > 0 && trimmed(result.transcripts@[0]@).len() > 0
                && !result.is_final ==> {
                &&& final(self).last_partial@ == trimmed(result.transcripts@[0]@)
                &&& r is None <==> old(self).last_partial@ == trimmed(result.transcripts@[0]@)
                &&& r matches Some(printed) ==> printed.text@ == "\r\x1b[2K"@ + "[partial] "@
                    + trimmed(result.transcripts@[0]@)
            },
    {
        if result.transcripts.len() == 0 {
            return None;
        }
        assert(result@.transcripts[0] == result.transcripts@[0]@);
        let transcript = trim(result.transcripts[0].as_str());
        if transcript.is_empty() {
            return None;
        }
        if result.is_final {
            let mut text = String::new();
            if !self.last_partial.as_str().is_empty() {
                text.append("\r\x1b[2K");
            }
            text.append("[final] ");
            text.append(transcript);
            text.append("\n");
            self.last_partial = String::new();
            assert(text@ =~= printed_of(old(self).last_partial@, result@)->Some_0.text);
            Some(Printed { text, failure: "failed to flush final transcript".to_owned() })
        } else if !same(transcript, self.last_partial.as_str()) {
            let mut text = "\r\x1b[2K".to_owned();
            text.append("[partial] ");
            text.append(transcript);
            self.last_partial = transcript.to_owned();
            Some(Printed { text, failure: "failed to flush partial transcript".to_owned() })
        } else {
            None
        }
    }

    /// Takes the results of a message, and says what to print, one piece after the other.
    pub fn on_message(&mut self, results: &Vec<RecognitionResult>) -> (r: Vec<Printed>)
        ensures
            final(self).last_partial@ == line_after_all(
                old(self).last_partial@,
                results@.map_values(|x: RecognitionResult| x@),
            ),
            all_printed(r@) == printed_of_all(
                old(self).last_partial@,
                results@.map_values(|x: RecognitionResult| x@),
            ),
    {
        let ghost all = results@.map_values(|x: RecognitionResult| x@);
        let ghost start = self.last_partial@;
        let mut r: Vec<Printed> = Vec::new();
        assert(all_printed(r@) =~= printed_of_all(start, all.take(0)));
        for i in 0..results.len()
            invariant
                all == results@.map_values(|x: RecognitionResult| x@),
                self.last_partial@ == line_after_all(start, all.take(i as int)),
                all_printed(r@) == printed_of_all(start, all.take(i as int)),
        {
            let ghost before = r@;
            proof {
                assert(all.take(i + 1).drop_last() =~= all.take(i as int));
                assert(all.take(i + 1).last() == results@[i as int]@);
            }
            match self.on_result(&results[i]) {
                Some(printed) => {
                    r.push(printed);
                    assert(all_printed(r@) =~= all_printed(before).push(printed@));
                },
                None => {},
            }
        }
        assert(all.take(all.len() as int) =~= all);
        r
    }
}

/// A blank result changes nothing and prints nothing.
pub proof fn law_blank_result(last: Seq<char>, result: RecognitionResultView)
    requires
        shown(result).len() == 0,
    ensures
        line_after(last, result) == last,
        printed_of(last, result) is None,
{
}

/// An interim result that comes again prints nothing.
pub proof fn law_repeated_partial(last: Seq<char>, result: RecognitionResultView)
    requires
        !result.is_final,
    ensures
        printed_of(line_after(last, result), result) is None,
{
}

/// After a final result that is not blank the line is empty, so that what the next one
/// prints does not depend on what came before.
pub proof fn law_final_clears_line(
    last: Seq<char>,
    other: Seq<char>,
    result: RecognitionResultView,
    next: RecognitionResultView,
)
    requires
        result.is_final,
        shown(result).len() > 0,
    ensures
        line_after(last, result).len() == 0,
        printed_of(line_after(last, result), next) == printed_of(line_after(other, result), next),
{
}

/// Each final result that is not blank is printed, and each other result that is not blank
/// where it is not on the line already.
pub proof fn law_nothing_is_lost(last: Seq<char>, result: RecognitionResultView)
    requires
        shown(result).len() > 0,
    ensures
        printed_of(last, result) is None <==> (!result.is_final && shown(result) == last),
{
}

/// It makes no difference how the results come in messages: two messages show what one with
/// the results of both would.
pub proof fn law_messages_join(
    last: Seq<char>,
    a: Seq<RecognitionResultView>,
    b: Seq<RecognitionResultView>,
)
    ensures
        line_after_all(last, a + b) == line_after_all(line_after_all(last, a), b),
        printed_of_all(last, a + b) == printed_of_all(last, a) + printed_of_all(
            line_after_all(last, a),
            b,
        ),
    decreases b.len(),
{
    if b.len() == 0 {
        assert(a + b =~= a);
        assert(printed_of_all(last, a) + printed_of_all(line_after_all(last, a), b)
            =~= printed_of_all(last, a));
    } else {
        law_messages_join(last, a, b.drop_last());
        assert((a + b).drop_last() =~= a + b.drop_last());
        assert((a + b).last() == b.last());
        assert(printed_of_all(last, a + b) =~= printed_of_all(last, a) + printed_of_all(
            line_after_all(last, a),
            b,
        ));
    }
}

/// What is on the line has no white space around it.
pub proof fn law_line_is_trimmed(results: Seq<RecognitionResultView>)
    ensures
        trimmed(line_after_all(seq![], results)) == line_after_all(seq![], results),
    decreases results.len(),
{
    if results.len() > 0 {
        law_line_is_trimmed(results.drop_last());
        if results.last().transcripts.len() > 0 {
            lemma_trimmed_twice(results.last().transcripts[0]);
        }
    }
}

proof fn lemma_trimmed_twice(s: Seq<char>)
    ensures
        trimmed(trimmed(s)) == trimmed(s),
{
    let a = trimmed_start(s);
    let b = trimmed_end(a);
    lemma_start(s);
    lemma_end(a);
    assert(b.len() > 0 ==> b[0] == a[0]);
    assert(trimmed_start(b) == b);
    assert(trimmed_end(b) == b);
}

proof fn lemma_start(s: Seq<char>)
    ensures
        trimmed_start(s).len() > 0 ==> !white_space(trimmed_start(s)[0]),
    decreases s.len(),
{
    if s.len() > 0 && white_space(s[0]) {
        lemma_start(s.drop_first());
    }
}

proof fn lemma_end(s: Seq<char>)
    ensures
        trimmed_end(s).len() > 0 ==> !white_space(trimmed_end(s).last()),
        trimmed_end(s).len() > 0 ==> trimmed_end(s)[0] == s[0],
        trimmed_end(s).len() <= s.len(),
    decreases s.len(),
{
    if s.len() > 0 && white_space(s.last()) {
        lemma_end(s.drop_last());
    }
}

/// A final result that is not blank is always shown, on a line of its own: the text ends with
/// the transcript and a line break, and before that there is at most the sequence that clears
/// the line, exactly where an interim transcript is on it. The line is empty then.
pub proof fn law_final_is_shown(last: Seq<char>, result: RecognitionResultView)
    requires
        result.is_final,
        result.transcripts.len() > 0,
        trimmed(result.transcripts[0]).len() > 0,
    ensures
        printed_of(last, result) matches Some(p) && {
            let line = "[final] "@ + trimmed(result.transcripts[0]) + "\n"@;
            &&& p.failure == "failed to flush final transcript"@
            &&& last.len() == 0 ==> p.text == line
            &&& last.len() > 0 ==> p.text == "\r\x1b[2K"@ + line
        },
        line_after(last, result) == Seq::<char>::empty(),
{
    let line = "[final] "@ + trimmed(result.transcripts[0]) + "\n"@;
    let text = printed_of(last, result)->Some_0.text;
    if last.len() > 0 {
        assert(text =~= "\r\x1b[2K"@ + line);
    } else {
        assert(text =~= line);
    }
}

/// But for the sequence that clears the line, what a final result prints does not depend on
/// what is on the line: on two lines that hold something it prints the same, and on an empty
/// one the same without that sequence.
pub proof fn law_final_does_not_depend_on_line(
    a: Seq<char>,
    b: Seq<char>,
    result: RecognitionResultView,
)
    requires
        result.is_final,
        a.len() > 0,
        b.len() > 0,
    ensures
        printed_of(a, result) == printed_of(b, result),
        printed_of(a, result) is Some <==> printed_of(seq![], result) is Some,
        printed_of(a, result) matches Some(p) ==> (printed_of(seq![], result) matches Some(q)
            && p.text == "\r\x1b[2K"@ + q.text),
{
    if result.transcripts.len() > 0 && trimmed(result.transcripts[0]).len() > 0 {
        law_final_is_shown(a, result);
        law_final_is_shown(seq![], result);
    }
}

/// An interim result that is not blank takes the line over: the line is cleared and holds its
/// transcript then, and nothing is printed exactly where it held that transcript before.
pub proof fn law_partial_takes_line_over(last: Seq<char>, result: RecognitionResultView)
    requires
        !result.is_final,
        result.transcripts.len() > 0,
        trimmed(result.transcripts[0]).len() > 0,
    ensures
        line_after(last, result) == trimmed(result.transcripts[0]),
        printed_of(last, result) is None <==> last == trimmed(result.transcripts[0]),
        printed_of(last, result) matches Some(p) ==> p.text == "\r\x1b[2K"@ + "[partial] "@
            + trimmed(result.transcripts[0]) && p.failure == "failed to flush partial transcript"@,
{
}

/// A result without a transcript, or with nothing but white space in the likeliest one, leaves
/// the line as it is and prints nothing.
pub proof fn law_blank_transcript(last: Seq<char>, result: RecognitionResultView)
    requires
        result.transcripts.len() == 0 || trimmed(result.transcripts[0]).len() == 0,
    ensures
        line_after(last, result) == last,
        printed_of(last, result) is None,
{
}

/// Only the likeliest transcript is shown.
pub proof fn law_likeliest_transcript_counts(
    last: Seq<char>,
    a: RecognitionResultView,
    b: RecognitionResultView,
)
    requires
        a.is_final == b.is_final,
        a.transcripts.len() > 0,
        b.transcripts.len() > 0,
        a.transcripts[0] == b.transcripts[0],
    ensures
        line_after(last, a) == line_after(last, b),
        printed_of(last, a) == printed_of(last, b),
{
}

/// A message of one result shows what the result does, and one of none nothing.
pub proof fn law_one_result(last: Seq<char>, result: RecognitionResultView)
    ensures
        line_after_all(last, seq![]) == last,
        printed_of_all(last, seq![]).len() == 0,
        line_after_all(last, seq![result]) == line_after(last, result),
        printed_of(last, result) matches Some(p) ==> printed_of_all(last, seq![result])
            == seq![p],
        printed_of(last, result) is None ==> printed_of_all(last, seq![result]).len() == 0,
{
    assert(seq![result].drop_last() =~= seq![]);
    assert(seq![result].last() == result);
    reveal_with_fuel(line_after_all, 2);
    reveal_with_fuel(printed_of_all, 2);
}

} // verus!
