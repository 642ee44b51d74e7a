//! Byte-stream scanning, search with early exit, and bounded debug
//! rendering, combined into a small workflow engine.

use vstd::prelude::*;
use vstd::string::StringExecFns;
use crate::digits::{chars_of, spec_decimal, u128_to_decimal};
use crate::external::ascii_to_string;
use crate::vecmap::{KeyedVec, NamedEntry};
use vstd::utf8::encode_utf8;

verus! {

/// ASCII whitespace: space, tab, line feed, form feed, carriage
/// return.
pub open spec fn is_ws(b: u8) -> bool {
    b == 32 || b == 9 || b == 10 || b == 12 || b == 13
}

/// ASCII decimal digit.
pub open spec fn is_digit_byte(b: u8) -> bool {
    48 <= b < 58
}

/// Position just past the current line: past the first line feed at
/// or after `pos`, or the end of the data.
pub open spec fn line_end(s: Seq<u8>, pos: int) -> int
    decreases s.len() - pos,
{
    if pos < 0 || pos >= s.len() {
        s.len() as int
    } else if s[pos] == 10 {
        pos + 1
    } else {
        line_end(s, pos + 1)
    }
}

/// How many consecutive whitespace bytes start at `i`, stopping at
/// `end`.
pub open spec fn leading_ws(s: Seq<u8>, i: int, end: int) -> int
    decreases end - i,
{
    if i < 0 || i >= end || i >= s.len() || !is_ws(s[i]) {
        0
    } else {
        1 + leading_ws(s, i + 1, end)
    }
}

/// How many consecutive digit bytes start at `i`, stopping at `end`.
pub open spec fn leading_digits(s: Seq<u8>, i: int, end: int) -> int
    decreases end - i,
{
    if i < 0 || i >= end || i >= s.len() || !is_digit_byte(s[i]) {
        0
    } else {
        1 + leading_digits(s, i + 1, end)
    }
}

/// Largest position in `(start, end]` with no trailing whitespace:
/// walks back from `end` over whitespace bytes.
pub open spec fn trim_end_idx(s: Seq<u8>, start: int, end: int) -> int
    decreases end - start,
{
    if end <= start || end > s.len() || end < 1 || !is_ws(s[end - 1]) {
        end
    } else {
        trim_end_idx(s, start, end - 1)
    }
}

/// Reads an in-memory byte buffer line by line, skipping prefixes.
pub struct BufReadProcessor {
    data: Vec<u8>,
    pos: usize,
}

impl BufReadProcessor {
    /// The buffered bytes.
    pub closed spec fn spec_data(&self) -> Seq<u8> {
        self.data@
    }

    /// The read position.
    pub closed spec fn spec_pos(&self) -> int {
        self.pos as int
    }

    /// The position stays inside the buffer.
    pub open spec fn wf(&self) -> bool {
        0 <= self.spec_pos() <= self.spec_data().len()
    }

    /// A processor at the start of `data`.
    pub fn new(data: Vec<u8>) -> (r: Self)
        ensures
            r.wf(),
            r.spec_data() == data@,
            r.spec_pos() == 0,
    {
        BufReadProcessor { data, pos: 0 }
    }

    /// Position just past the current line.
    fn find_line_end(&self) -> (r: usize)
        requires
            self.wf(),
        ensures
            r == line_end(self.spec_data(), self.spec_pos()),
            self.spec_pos() <= r <= self.spec_data().len(),
    {
        let n = self.data.len();
        let mut i: usize = self.pos;
        while i < n
            invariant
                n == self.data@.len(),
                self.pos <= i <= n,
                line_end(self.data@, self.pos as int) == line_end(self.data@, i as int),
            decreases n - i,
        {
            if self.data[i] == 10 {
                return i + 1;
            }
            i = i + 1;
        }
        n
    }

    /// Consume the current line and count its leading whitespace
    /// bytes.
    pub fn skip_whitespace(&mut self) -> (r: Result<usize, String>)
        requires
            old(self).wf(),
        ensures
            final(self).wf(),
            final(self).spec_data() == old(self).spec_data(),
            final(self).spec_pos() == line_end(old(self).spec_data(), old(self).spec_pos()),
            r matches Ok(k) && k == leading_ws(
                old(self).spec_data(),
                old(self).spec_pos(),
                line_end(old(self).spec_data(), old(self).spec_pos()),
            ),
    {
        let end = self.find_line_end();
        let mut i: usize = self.pos;
        while i < end
            invariant
                self.wf(),
                end <= self.data@.len(),
                self.pos <= i <= end,
                leading_ws(self.data@, self.pos as int, end as int)
                    == (i - self.pos) + leading_ws(self.data@, i as int, end as int),
            ensures
                self.pos <= i <= end,
                leading_ws(self.data@, self.pos as int, end as int)
                    == (i - self.pos) + leading_ws(self.data@, i as int, end as int),
                i == end || !is_ws(self.data@[i as int]),
            decreases end - i,
        {
            let b = self.data[i];
            if !(b == 32 || b == 9 || b == 10 || b == 12 || b == 13) {
                break;
            }
            i = i + 1;
        }
        let skipped = i - self.pos;
        self.pos = end;
        Ok(skipped)
    }

    /// Consume the current line and count its leading whitespace
    /// bytes, the iterator-styled variant.
    pub fn skip_whitespace_iter(&mut self) -> (r: Result<usize, String>)
        requires
            old(self).wf(),
        ensures
            final(self).wf(),
            final(self).spec_data() == old(self).spec_data(),
            final(self).spec_pos() == line_end(old(self).spec_data(), old(self).spec_pos()),
            r matches Ok(k) && k == leading_ws(
                old(self).spec_data(),
                old(self).spec_pos(),
                line_end(old(self).spec_data(), old(self).spec_pos()),
            ),
    {
        self.skip_whitespace()
    }

    /// Consume the current line and count its leading digit bytes.
    pub fn skip_digits(&mut self) -> (r: Result<usize, String>)
        requires
            old(self).wf(),
        ensures
            final(self).wf(),
            final(self).spec_data() == old(self).spec_data(),
            final(self).spec_pos() == line_end(old(self).spec_data(), old(self).spec_pos()),
            r matches Ok(k) && k == leading_digits(
                old(self).spec_data(),
                old(self).spec_pos(),
                line_end(old(self).spec_data(), old(self).spec_pos()),
            ),
    {
        let end = self.find_line_end();
        let mut i: usize = self.pos;
        while i < end
            invariant
                self.wf(),
                end <= self.data@.len(),
                self.pos <= i <= end,
                leading_digits(self.data@, self.pos as int, end as int)
                    == (i - self.pos) + leading_digits(self.data@, i as int, end as int),
            ensures
                self.pos <= i <= end,
                leading_digits(self.data@, self.pos as int, end as int)
                    == (i - self.pos) + leading_digits(self.data@, i as int, end as int),
                i == end || !is_digit_byte(self.data@[i as int]),
            decreases end - i,
        {
            let b = self.data[i];
            if !(48 <= b && b < 58) {
                break;
            }
            i = i + 1;
        }
        let skipped = i - self.pos;
        self.pos = end;
        Ok(skipped)
    }

    /// Consume the current line and return it with leading and
    /// trailing whitespace removed.  The buffer must hold ASCII text.
    pub fn read_line_skip_whitespace(&mut self) -> (r: Result<String, String>)
        requires
            old(self).wf(),
            forall|i: int| 0 <= i < old(self).spec_data().len()
                ==> (#[trigger] old(self).spec_data()[i]) < 128,
        ensures
            final(self).wf(),
            final(self).spec_data() == old(self).spec_data(),
            final(self).spec_pos() == line_end(old(self).spec_data(), old(self).spec_pos()),
            r matches Ok(t) && ({
                let s = old(self).spec_data();
                let p = old(self).spec_pos();
                let e = line_end(s, p);
                let start = p + leading_ws(s, p, e);
                t@ == chars_of(s.subrange(start, trim_end_idx(s, start, e)))
            }),
    {
        let ghost s = self.data@;
        let ghost p = self.pos as int;
        let end = self.find_line_end();
        let mut i: usize = self.pos;
        while i < end
            invariant
                self.wf(),
                self.data@ == s,
                self.pos as int == p,
                end <= self.data@.len(),
                self.pos <= i <= end,
                leading_ws(self.data@, self.pos as int, end as int)
                    == (i - self.pos) + leading_ws(self.data@, i as int, end as int),
            ensures
                self.wf(),
                self.data@ == s,
                self.pos as int == p,
                self.pos <= i <= end,
                leading_ws(self.data@, self.pos as int, end as int)
                    == (i - self.pos) + leading_ws(self.data@, i as int, end as int),
                i == end || !is_ws(self.data@[i as int]),
            decreases end - i,
        {
            let b = self.data[i];
            if !(b == 32 || b == 9 || b == 10 || b == 12 || b == 13) {
                break;
            }
            i = i + 1;
        }
        let start = i;
        proof {
            assert(leading_ws(s, i as int, end as int) == 0);
            assert(start as int == p + leading_ws(s, p, end as int));
        }
        let mut stop = end;
        while stop > start
            invariant
                self.wf(),
                self.data@ == s,
                end <= self.data@.len(),
                start <= stop <= end,
                trim_end_idx(self.data@, start as int, end as int)
                    == trim_end_idx(self.data@, start as int, stop as int),
            ensures
                self.data@ == s,
                start <= stop <= end,
                trim_end_idx(self.data@, start as int, end as int)
                    == trim_end_idx(self.data@, start as int, stop as int),
                stop == start || !is_ws(self.data@[stop as int - 1]),
            decreases stop,
        {
            let b = self.data[stop - 1];
            if !(b == 32 || b == 9 || b == 10 || b == 12 || b == 13) {
                break;
            }
            stop = stop - 1;
        }
        proof {
            assert(trim_end_idx(s, start as int, stop as int) == stop);
        }
        let mut bytes: Vec<u8> = Vec::new();
        let mut j: usize = start;
        while j < stop
            invariant
                self.wf(),
                self.data@ == s,
                start <= j <= stop <= self.data@.len(),
                bytes@ == s.subrange(start as int, j as int),
                forall|k: int| 0 <= k < s.len() ==> (#[trigger] s[k]) < 128,
            decreases stop - j,
        {
            let ghost pre = bytes@;
            bytes.push(self.data[j]);
            j = j + 1;
            proof {
                assert(bytes@ =~= s.subrange(start as int, j as int));
            }
        }
        self.pos = end;
        Ok(ascii_to_string(bytes))
    }
}

/// The first position at or after `i` holding `target`.
pub open spec fn find_from(s: Seq<i32>, i: int, target: i32) -> Option<int>
    decreases s.len() - i,
{
    if i < 0 || i >= s.len() {
        None
    } else if s[i] == target {
        Some(i)
    } else {
        find_from(s, i + 1, target)
    }
}

/// Scans integer data with an explicit cursor and early exit.
pub struct ControlFlowProcessor {
    data: Vec<i32>,
    current_index: usize,
}

impl ControlFlowProcessor {
    /// The data being scanned.
    pub closed spec fn spec_data(&self) -> Seq<i32> {
        self.data@
    }

    /// The cursor.
    pub closed spec fn spec_index(&self) -> int {
        self.current_index as int
    }

    /// The cursor stays inside the data.
    pub open spec fn wf(&self) -> bool {
        0 <= self.spec_index() <= self.spec_data().len()
    }

    /// A processor at the start of `data`.
    pub fn new(data: Vec<i32>) -> (r: Self)
        ensures
            r.wf(),
            r.spec_data() == data@,
            r.spec_index() == 0,
    {
        ControlFlowProcessor { data, current_index: 0 }
    }

    /// Scan forward from the cursor for `target`: `Ok(Some(target))`
    /// leaves the cursor just past the match, `Ok(None)` (no match)
    /// leaves it at the end.
    pub fn process_with_control_flow(&mut self, target: i32) -> (r: Result<Option<i32>, String>)
        requires
            old(self).wf(),
        ensures
            final(self).wf(),
            final(self).spec_data() == old(self).spec_data(),
            match find_from(old(self).spec_data(), old(self).spec_index(), target) {
                Some(ix) => r matches Ok(o) && o == Some(target)
                    && final(self).spec_index() == ix + 1,
                None => r matches Ok(o) && o is None
                    && final(self).spec_index() == old(self).spec_data().len(),
            },
    {
        let n = self.data.len();
        let mut i: usize = self.current_index;
        while i < n
            invariant
                n == self.data@.len(),
                self.data@ == old(self).spec_data(),
                self.current_index as int == old(self).spec_index(),
                old(self).spec_index() <= i <= n,
                find_from(old(self).spec_data(), old(self).spec_index(), target)
                    == find_from(old(self).spec_data(), i as int, target),
            decreases n - i,
        {
            if self.data[i] == target {
                proof {
                    assert(find_from(old(self).spec_data(), i as int, target) == Some(i as int));
                }
                self.current_index = i + 1;
                return Ok(Some(target));
            }
            i = i + 1;
        }
        proof {
            assert(find_from(old(self).spec_data(), n as int, target) is None);
        }
        self.current_index = n;
        Ok(None)
    }

    /// Map the data through `condition` in order, stopping at its
    /// first break: the result is the element-wise image of the
    /// longest non-breaking prefix.
    pub fn process_conditionally<F: Fn(i32) -> core::ops::ControlFlow<(), i32>>(
        &mut self,
        condition: F,
    ) -> (r: Result<Vec<i32>, String>)
        requires
            old(self).wf(),
            forall|x: i32| #[trigger] condition.requires((x,)),
        ensures
            *final(self) == *old(self),
            r is Ok,
            r matches Ok(v) ==> v@.len() <= old(self).spec_data().len(),
            r matches Ok(v) ==> conditional_results_ok(condition, old(self).spec_data(), v@),
    {
        let n = self.data.len();
        let mut results: Vec<i32> = Vec::new();
        let mut i: usize = 0;
        while i < n
            invariant
                n == self.data@.len(),
                i <= n,
                *self == *old(self),
                results@.len() == i,
                forall|x: i32| #[trigger] condition.requires((x,)),
                forall|j: int| 0 <= j < i ==> call_ensures(
                    condition,
                    (old(self).spec_data()[j],),
                    core::ops::ControlFlow::<(), i32>::Continue(#[trigger] results@[j]),
                ),
            decreases n - i,
        {
            let x = self.data[i];
            let ghost prev = results@;
            let cf = condition(x);
            match cf {
                core::ops::ControlFlow::Continue(v) => {
                    results.push(v);
                    proof {
                        assert forall|j: int| 0 <= j < results@.len()
                            implies call_ensures(
                                condition,
                                (old(self).spec_data()[j],),
                                core::ops::ControlFlow::<(), i32>::Continue(#[trigger] results@[j]),
                            ) by {
                            if j < prev.len() {
                                assert(results@[j] == prev[j]);
                            } else {
                                assert(results@[j] == v);
                            }
                        }
                    }
                },
                core::ops::ControlFlow::Break(b) => {
                    proof {
                        assert(b == ());
                        assert(cf == core::ops::ControlFlow::<(), i32>::Break(b));
                        assert(old(self).spec_data()[results@.len() as int] == x);
                        assert(conditional_results_ok(condition, old(self).spec_data(), results@));
                    }
                    return Ok(results);
                },
            }
            i = i + 1;
        }
        proof {
            assert(conditional_results_ok(condition, old(self).spec_data(), results@));
        }
        Ok(results)
    }
}

/// `v` is the element-wise image of the prefix of `data` before the
/// first break: `condition` continued with `v[j]` on `data[j]` for
/// every position of `v`, and where `v` ends short of `data`,
/// `condition` broke on the next element.
pub open spec fn conditional_results_ok<F: Fn(i32) -> core::ops::ControlFlow<(), i32>>(
    condition: F,
    data: Seq<i32>,
    v: Seq<i32>,
) -> bool {
    &&& v.len() <= data.len()
    &&& (forall|j: int| 0 <= j < v.len() ==> call_ensures(
        condition,
        (data[j],),
        core::ops::ControlFlow::<(), i32>::Continue(#[trigger] v[j]),
    ))
    &&& (v.len() < data.len() ==> call_ensures(
        condition,
        (data[v.len() as int],),
        core::ops::ControlFlow::<(), i32>::Break(()),
    ))
}

/// An item a debug renderer displays.
#[derive(Debug, Clone)]
pub struct DebugItem {
    /// Item number.
    pub id: u32,
    /// Item name; what the renderer shows.
    pub name: String,
    /// Item value.
    pub value: i32,
}

/// The names of the first `shown` items joined with `", "`.
pub open spec fn names_joined(items: Seq<DebugItem>, shown: int) -> Seq<char>
    decreases shown,
{
    if shown <= 0 || shown > items.len() {
        Seq::empty()
    } else if shown == 1 {
        items[0].name@
    } else {
        names_joined(items, shown - 1) + ", "@ + items[shown - 1].name@
    }
}

/// The full rendering: the shown names in brackets, with a trailing
/// `..` when items were hidden.
pub open spec fn spec_debug_render(items: Seq<DebugItem>, maxn: int) -> Seq<char> {
    let shown = if items.len() <= maxn {
        items.len() as int
    } else {
        maxn
    };
    let body = if items.len() > maxn {
        if shown > 0 {
            names_joined(items, shown) + ", .."@
        } else {
            ".."@
        }
    } else {
        names_joined(items, shown)
    };
    "DebugListProcessor(["@ + body + "])"@
}

/// Collects items and renders a bounded debug listing of them.
pub struct DebugListProcessor {
    items: Vec<DebugItem>,
    max_display_items: usize,
}

/// Counts derived from a listing.
#[derive(Debug, Clone, Copy, PartialEq, Eq, Structural)]
pub struct DebugStats {
    /// Items collected.
    pub total_items: usize,
    /// Items the renderer shows.
    pub displayed_items: usize,
    /// Items the renderer hides behind `..`.
    pub hidden_items: usize,
}

impl DebugListProcessor {
    /// The collected items.
    pub closed spec fn spec_items(&self) -> Seq<DebugItem> {
        self.items@
    }

    /// The display bound.
    pub closed spec fn spec_max_display(&self) -> int {
        self.max_display_items as int
    }

    /// A renderer showing at most `max_display_items` items.
    pub fn new(max_display_items: usize) -> (r: Self)
        ensures
            r.spec_items().len() == 0,
            r.spec_max_display() == max_display_items,
    {
        DebugListProcessor { items: Vec::new(), max_display_items }
    }

    /// Collect one more item.
    pub fn add_item(&mut self, item: DebugItem)
        ensures
            final(self).spec_items() == old(self).spec_items().push(item),
            final(self).spec_max_display() == old(self).spec_max_display(),
    {
        self.items.push(item);
    }

    /// Render the listing: the first items' names in brackets, `..`
    /// standing for any hidden ones.
    pub fn format_debug_output(&self) -> (r: String)
        ensures
            r@ == spec_debug_render(self.spec_items(), self.spec_max_display()),
    {
        let total = self.items.len();
        let shown = if total <= self.max_display_items {
            total
        } else {
            self.max_display_items
        };
        let mut out = "DebugListProcessor([".to_owned();
        let mut i: usize = 0;
        while i < shown
            invariant
                shown <= self.items@.len(),
                i <= shown,
                out@ == "DebugListProcessor(["@ + names_joined(self.items@, i as int),
            decreases shown - i,
        {
            if i > 0 {
                out = out.concat(", ");
            }
            out = out.concat(self.items[i].name.as_str());
            i = i + 1;
            proof {
                if i == 1 {
                    assert(names_joined(self.items@, 1) == self.items@[0].name@);
                    assert(out@ =~= "DebugListProcessor(["@ + names_joined(self.items@, 1));
                } else {
                    assert(out@ =~= "DebugListProcessor(["@ + names_joined(self.items@, i as int));
                }
            }
        }
        if total > self.max_display_items {
            if shown > 0 {
                out = out.concat(", ..");
                proof {
                    assert(out@ =~= "DebugListProcessor(["@
                        + (names_joined(self.items@, shown as int) + ", .."@));
                }
            } else {
                out = out.concat("..");
                proof {
                    assert(names_joined(self.items@, 0) =~= Seq::<char>::empty());
                    assert(out@ =~= "DebugListProcessor(["@ + ".."@);
                }
            }
        }
        let done = out.concat("])");
        proof {
            assert(done@ =~= spec_debug_render(self.spec_items(), self.spec_max_display()));
        }
        done
    }

    /// Counts of collected, shown and hidden items.
    pub fn get_stats(&self) -> (r: DebugStats)
        ensures
            r.total_items == self.spec_items().len(),
            r.displayed_items == (if self.spec_items().len() <= self.spec_max_display() {
                self.spec_items().len() as int
            } else {
                self.spec_max_display()
            }),
            r.hidden_items == (if self.spec_items().len() >= self.spec_max_display() {
                self.spec_items().len() - self.spec_max_display()
            } else {
                0
            }),
    {
        let total = self.items.len();
        let displayed = if total <= self.max_display_items {
            total
        } else {
            self.max_display_items
        };
        let hidden = if total >= self.max_display_items {
            total - self.max_display_items
        } else {
            0
        };
        DebugStats { total_items: total, displayed_items: displayed, hidden_items: hidden }
    }
}

/// One step of a registered workflow definition.
#[derive(Debug)]
pub struct WorkflowStep {
    /// Step name.
    pub name: String,
    /// Action the step performs.
    pub action: String,
    /// Encoded step input.
    pub input: String,
    /// Encoded step output.
    pub output: String,
}

impl Clone for WorkflowStep {
    fn clone(&self) -> (r: Self)
        ensures
            r == *self,
    {
        WorkflowStep {
            name: self.name.clone(),
            action: self.action.clone(),
            input: self.input.clone(),
            output: self.output.clone(),
        }
    }
}

/// Per-definition configuration.
#[derive(Debug, Clone, Copy, PartialEq, Eq, Structural)]
pub struct WorkflowConfig {
    /// Timeout in seconds.
    pub timeout: u64,
    /// Retries granted.
    pub retries: u32,
    /// Whether debug rendering is on.
    pub enable_debug: bool,
}

/// A registered workflow definition.
#[derive(Debug, Clone)]
pub struct WorkflowDefinition {
    /// The definition's own name.
    pub name: String,
    /// Its steps, in order.
    pub steps: Vec<WorkflowStep>,
    /// Its configuration.
    pub config: WorkflowConfig,
}

/// One step's processed outcome.
#[derive(Debug, Clone)]
pub struct ProcessedStep {
    /// The step's name.
    pub name: String,
    /// The value the scan produced for it.
    pub result: i32,
}

/// The outcome of executing a registered workflow.
#[derive(Debug)]
pub struct WorkflowResult {
    /// The registration name executed.
    pub workflow_name: String,
    /// Whitespace bytes skipped while scanning the input buffer.
    pub skipped_chars: usize,
    /// Outcomes of the steps whose scan found a match.
    pub processed_steps: Vec<ProcessedStep>,
    /// The renderer's counts afterwards.
    pub debug_stats: DebugStats,
}

/// The input buffer a fresh engine scans: three spaces, a first line
/// of text, then a line of digits and text.
pub open spec fn sample_input_bytes() -> Seq<u8> {
    seq![32u8, 32u8, 32u8, 104u8, 101u8, 108u8, 108u8, 111u8, 32u8, 119u8, 111u8, 114u8, 108u8,
        100u8, 10u8, 49u8, 50u8, 51u8, 116u8, 101u8, 115u8, 116u8]
}

/// The integers a fresh engine scans for step matches.
pub open spec fn sample_scan_data() -> Seq<i32> {
    seq![1i32, 2i32, 3i32, 4i32, 5i32]
}

/// The scan target a step name determines: the name's encoded byte
/// length, held to the target type's range.
pub open spec fn step_target(name: Seq<char>) -> i32 {
    let l = encode_utf8(name).len() as usize;
    if l > i32::MAX {
        i32::MAX
    } else {
        l as i32
    }
}

/// The renderer's id for a matched value.
pub open spec fn debug_id_of(v: i32) -> u32 {
    if v >= 0 {
        v as u32
    } else {
        0
    }
}

/// The scan cursor and the matched `(name, value)` pairs after some
/// steps ran.
pub ghost struct ScanState {
    /// The scan cursor.
    pub cursor: int,
    /// The steps whose scan found a match, with the matched value.
    pub processed: Seq<(Seq<char>, i32)>,
}

/// Run the steps from position `k` on: each step scans the data from
/// the cursor for its name's target; a hit advances the cursor past
/// the match and records the pair, a miss exhausts the cursor.
pub open spec fn spec_engine_scan(
    data: Seq<i32>,
    names: Seq<Seq<char>>,
    st: ScanState,
    k: nat,
) -> ScanState
    decreases names.len() - k,
{
    if k >= names.len() {
        st
    } else {
        let t = step_target(names[k as int]);
        match find_from(data, st.cursor, t) {
            Some(ix) => spec_engine_scan(
                data,
                names,
                ScanState {
                    cursor: ix + 1,
                    processed: st.processed.push((names[k as int], t)),
                },
                k + 1,
            ),
            None => spec_engine_scan(
                data,
                names,
                ScanState { cursor: data.len() as int, processed: st.processed },
                k + 1,
            ),
        }
    }
}

/// Workflow engine combining the scanners and the renderer.
pub struct StableAPIWorkflowEngine {
    buf_read_processor: BufReadProcessor,
    control_flow_processor: ControlFlowProcessor,
    debug_processor: DebugListProcessor,
    workflows: KeyedVec<NamedEntry<WorkflowDefinition>>,
}

impl StableAPIWorkflowEngine {
    /// The registered definitions, by registration name.
    pub closed spec fn workflows_view(&self) -> Map<Seq<char>, NamedEntry<WorkflowDefinition>> {
        self.workflows.view()
    }

    /// Registry keys unique, scanners within bounds.
    pub closed spec fn wf(&self) -> bool {
        &&& self.workflows.well_formed()
        &&& self.buf_read_processor.wf()
        &&& self.control_flow_processor.wf()
    }

    /// The integers the engine's scanner walks.
    pub closed spec fn scan_data(&self) -> Seq<i32> {
        self.control_flow_processor.spec_data()
    }

    /// The scanner's cursor.
    pub closed spec fn scan_index(&self) -> int {
        self.control_flow_processor.spec_index()
    }

    /// An engine over the fixed sample buffer and scan data, with
    /// nothing registered.
    pub fn new() -> (r: Self)
        ensures
            r.wf(),
            r.workflows_view() == Map::<Seq<char>, NamedEntry<WorkflowDefinition>>::empty(),
            r.buf_data() == sample_input_bytes(),
            r.buf_pos() == 0,
            r.scan_data() == sample_scan_data(),
            r.scan_index() == 0,
            r.debug_items().len() == 0,
            r.debug_max_display() == 3,
    {
        let mut sample: Vec<u8> = Vec::new();
        sample.push(32);
        sample.push(32);
        sample.push(32);
        sample.push(104);
        sample.push(101);
        sample.push(108);
        sample.push(108);
        sample.push(111);
        sample.push(32);
        sample.push(119);
        sample.push(111);
        sample.push(114);
        sample.push(108);
        sample.push(100);
        sample.push(10);
        sample.push(49);
        sample.push(50);
        sample.push(51);
        sample.push(116);
        sample.push(101);
        sample.push(115);
        sample.push(116);
        let mut scan_data: Vec<i32> = Vec::new();
        scan_data.push(1);
        scan_data.push(2);
        scan_data.push(3);
        scan_data.push(4);
        scan_data.push(5);
        proof {
            assert(sample@ =~= sample_input_bytes());
            assert(scan_data@ =~= sample_scan_data());
        }
        StableAPIWorkflowEngine {
            buf_read_processor: BufReadProcessor::new(sample),
            control_flow_processor: ControlFlowProcessor::new(scan_data),
            debug_processor: DebugListProcessor::new(3),
            workflows: KeyedVec::new(),
        }
    }

    /// Register `definition` under `name`, replacing a previous one.
    pub fn register_workflow(&mut self, name: String, definition: WorkflowDefinition)
        requires
            old(self).wf(),
        ensures
            final(self).wf(),
            final(self).workflows_view().contains_key(name@),
            final(self).workflows_view()[name@].value.name@ == definition.name@,
            final(self).workflows_view()[name@].value.steps@ == definition.steps@,
            final(self).workflows_view().remove(name@)
                == old(self).workflows_view().remove(name@),
            final(self).buf_data() == old(self).buf_data(),
            final(self).buf_pos() == old(self).buf_pos(),
            final(self).scan_data() == old(self).scan_data(),
            final(self).scan_index() == old(self).scan_index(),
            final(self).debug_items() == old(self).debug_items(),
            final(self).debug_max_display() == old(self).debug_max_display(),
    {
        let key = name.clone();
        self.workflows.insert(&key, NamedEntry { name, value: definition });
        proof {
            assert(final(self).workflows_view().remove(key@)
                =~= old(self).workflows_view().remove(key@));
        }
    }

    /// Execute a registered workflow: succeeds exactly when
    /// `workflow_name` is registered.  The input buffer's current line
    /// is consumed for its whitespace count; each step scans the data
    /// from the cursor for its name's byte length, and every match
    /// becomes a processed step and a rendered debug item, exactly as
    /// `spec_engine_scan` lays out.
    pub fn execute_workflow(&mut self, workflow_name: &str) -> (r: Result<WorkflowResult, String>)
        requires
            old(self).wf(),
        ensures
            final(self).wf(),
            final(self).workflows_view() == old(self).workflows_view(),
            r is Ok <==> old(self).workflows_view().contains_key(workflow_name@),
            r matches Ok(v) ==> ({
                let names = old(self).workflows_view()[workflow_name@].value.steps@
                    .map_values(|st: WorkflowStep| st.name@);
                let outcome = spec_engine_scan(
                    old(self).scan_data(),
                    names,
                    ScanState { cursor: old(self).scan_index(), processed: Seq::empty() },
                    0,
                );
                &&& v.workflow_name@ == workflow_name@
                &&& v.skipped_chars == leading_ws(
                    old(self).buf_data(),
                    old(self).buf_pos(),
                    line_end(old(self).buf_data(), old(self).buf_pos()),
                )
                &&& v.processed_steps@.map_values(|p: ProcessedStep| (p.name@, p.result))
                    == outcome.processed
                &&& final(self).scan_data() == old(self).scan_data()
                &&& final(self).scan_index() == outcome.cursor
                &&& final(self).buf_data() == old(self).buf_data()
                &&& final(self).buf_pos() == line_end(old(self).buf_data(), old(self).buf_pos())
                &&& final(self).debug_max_display() == old(self).debug_max_display()
                &&& final(self).debug_items().len()
                    == old(self).debug_items().len() + outcome.processed.len()
                &&& final(self).debug_items().take(old(self).debug_items().len() as int)
                    == old(self).debug_items()
                &&& (forall|j: int| 0 <= j < outcome.processed.len() ==> {
                    let it = #[trigger] final(self).debug_items()[
                        old(self).debug_items().len() + j
                    ];
                    it.name@ == outcome.processed[j].0
                        && it.value == outcome.processed[j].1
                        && it.id == debug_id_of(outcome.processed[j].1)
                })
                &&& v.debug_stats.total_items == final(self).debug_items().len()
            }),
            r is Err ==> *final(self) == *old(self),
            !old(self).workflows_view().contains_key(workflow_name@)
                ==> (r matches Err(m)
                    && m@ == "Workflow '"@ + workflow_name@ + "' not found"@),
    {
        let key = workflow_name.to_owned();
        let steps: Vec<WorkflowStep> = match self.workflows.get(&key) {
            Some(entry) => {
                let cloned = entry.value.steps.clone();
                proof {
                    assert forall|j: int| 0 <= j < cloned@.len()
                        implies cloned@[j] == entry.value.steps@[j] by {
                        assert(vstd::pervasive::cloned::<WorkflowStep>(
                            entry.value.steps@[j],
                            cloned@[j],
                        ));
                    }
                    assert(cloned@ =~= entry.value.steps@);
                }
                cloned
            },
            None => {
                let msg = ("Workflow '".to_owned()).concat(workflow_name).concat("' not found");
                return Err(msg);
            },
        };
        let ghost names = steps@.map_values(|st: WorkflowStep| st.name@);
        let ghost init = ScanState { cursor: old(self).scan_index(), processed: Seq::empty() };
        let skipped_chars = match self.buf_read_processor.skip_whitespace() {
            Ok(k) => k,
            Err(e) => {
                return Err(e);
            },
        };
        let mut processed_steps: Vec<ProcessedStep> = Vec::new();
        let n = steps.len();
        let mut i: usize = 0;
        proof {
            assert(processed_steps@.map_values(|p: ProcessedStep| (p.name@, p.result))
                =~= Seq::<(Seq<char>, i32)>::empty());
            assert(self.debug_processor.spec_items().take(old(self).debug_items().len() as int)
                =~= old(self).debug_items());
        }
        while i < n
            invariant
                n == steps@.len(),
                i <= n,
                names == steps@.map_values(|st: WorkflowStep| st.name@),
                init == (ScanState { cursor: old(self).scan_index(), processed: Seq::<(Seq<char>, i32)>::empty() }),
                self.workflows == old(self).workflows,
                self.buf_read_processor.wf(),
                self.buf_read_processor.spec_data() == old(self).buf_data(),
                self.buf_read_processor.spec_pos()
                    == line_end(old(self).buf_data(), old(self).buf_pos()),
                self.control_flow_processor.wf(),
                self.control_flow_processor.spec_data() == old(self).scan_data(),
                self.debug_processor.spec_max_display() == old(self).debug_max_display(),
                processed_steps@.len() <= i,
                spec_engine_scan(old(self).scan_data(), names, init, 0)
                    == spec_engine_scan(
                        old(self).scan_data(),
                        names,
                        ScanState {
                            cursor: self.control_flow_processor.spec_index(),
                            processed: processed_steps@.map_values(
                                |p: ProcessedStep| (p.name@, p.result),
                            ),
                        },
                        i as nat,
                    ),
                self.debug_processor.spec_items().len()
                    == old(self).debug_items().len() + processed_steps@.len(),
                self.debug_processor.spec_items().take(old(self).debug_items().len() as int)
                    == old(self).debug_items(),
                forall|j: int| 0 <= j < processed_steps@.len() ==> {
                    let it = #[trigger] self.debug_processor.spec_items()[
                        old(self).debug_items().len() + j
                    ];
                    it.name@ == processed_steps@[j].name@
                        && it.value == processed_steps@[j].result
                        && it.id == debug_id_of(processed_steps@[j].result)
                },
            decreases n - i,
        {
            let ghost pre_state = ScanState {
                cursor: self.control_flow_processor.spec_index(),
                processed: processed_steps@.map_values(|p: ProcessedStep| (p.name@, p.result)),
            };
            let ghost pre_processed = processed_steps@;
            let ghost pre_items = self.debug_processor.spec_items();
            let step = &steps[i];
            let name_len = step.name.as_str().len();
            let target: i32 = if name_len > i32::MAX as usize {
                i32::MAX
            } else {
                name_len as i32
            };
            proof {
                assert(names[i as int] == steps@[i as int].name@);
                assert(target == step_target(names[i as int]));
            }
            match self.control_flow_processor.process_with_control_flow(target) {
                Ok(Some(value)) => {
                    processed_steps.push(ProcessedStep { name: step.name.clone(), result: value });
                    self.debug_processor.add_item(DebugItem {
                        id: if value >= 0 {
                            value as u32
                        } else {
                            0
                        },
                        name: step.name.clone(),
                        value,
                    });
                    proof {
                        assert(processed_steps@.map_values(|p: ProcessedStep| (p.name@, p.result))
                            =~= pre_state.processed.push((names[i as int], target)));
                        assert(self.debug_processor.spec_items()
                            == pre_items.push(self.debug_processor.spec_items().last()));
                        assert(self.debug_processor.spec_items().take(
                            old(self).debug_items().len() as int,
                        ) =~= old(self).debug_items());
                        assert forall|j: int| 0 <= j < processed_steps@.len() implies {
                            let it = #[trigger] self.debug_processor.spec_items()[
                                old(self).debug_items().len() + j
                            ];
                            it.name@ == processed_steps@[j].name@
                                && it.value == processed_steps@[j].result
                                && it.id == debug_id_of(processed_steps@[j].result)
                        } by {
                            if j < pre_processed.len() {
                                assert(self.debug_processor.spec_items()[
                                    old(self).debug_items().len() + j
                                ] == pre_items[old(self).debug_items().len() + j]);
                                assert(processed_steps@[j] == pre_processed[j]);
                            }
                        }
                    }
                },
                Ok(None) => {},
                Err(e) => {
                    return Err(e);
                },
            }
            i = i + 1;
        }
        proof {
            let current = ScanState {
                cursor: self.control_flow_processor.spec_index(),
                processed: processed_steps@.map_values(|p: ProcessedStep| (p.name@, p.result)),
            };
            assert(spec_engine_scan(old(self).scan_data(), names, current, n as nat) == current);
        }
        let debug_stats = self.debug_processor.get_stats();
        Ok(WorkflowResult {
            workflow_name: key,
            skipped_chars,
            processed_steps,
            debug_stats,
        })
    }

    /// The buffered input bytes.
    pub closed spec fn buf_data(&self) -> Seq<u8> {
        self.buf_read_processor.spec_data()
    }

    /// The input buffer's read position.
    pub closed spec fn buf_pos(&self) -> int {
        self.buf_read_processor.spec_pos()
    }

    /// Render the debug listing collected so far.
    pub fn get_debug_output(&self) -> (r: String)
        ensures
            r@ == spec_debug_render(
                self.debug_items(),
                self.debug_max_display(),
            ),
    {
        self.debug_processor.format_debug_output()
    }

    /// The collected debug items.
    pub closed spec fn debug_items(&self) -> Seq<DebugItem> {
        self.debug_processor.spec_items()
    }

    /// The renderer's display bound.
    pub closed spec fn debug_max_display(&self) -> int {
        self.debug_processor.spec_max_display()
    }
}

} // verus!
