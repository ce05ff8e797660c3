//! The service-definition lines: selecting lines that carry an image
//! reference, reading the reference out, and splicing a new one in.

use vstd::prelude::*;

verus! {

use vstd::arithmetic::div_mod::lemma_add_mod_noop;
use vstd::arithmetic::div_mod::lemma_add_mod_noop_right;
use vstd::arithmetic::div_mod::lemma_mod_multiples_vanish;
use vstd::arithmetic::div_mod::lemma_mod_self_0;
use vstd::arithmetic::div_mod::lemma_small_mod;
use vstd::string::StrSliceExecFns;
use vstd::string::StringExecFns;

use crate::strings::contains_pattern;
use crate::strings::find_pattern;
use crate::strings::match_at;
use crate::strings::views_of;
use crate::tags::Error;

/// The token that marks a line as carrying an image reference.
pub open spec fn image_pat() -> Seq<char> {
    "image: "@
}

/// The line carries an image reference.
pub open spec fn line_matches(line: Seq<char>) -> bool {
    contains_pattern(line, image_pat())
}

/// The index one step forward in cyclic order.
pub open spec fn step_next(i: int, n: int) -> int {
    if i + 1 < n {
        i + 1
    } else {
        0
    }
}

/// The index one step backward in cyclic order.
pub open spec fn step_prev(i: int, n: int) -> int {
    if i > 0 {
        i - 1
    } else {
        n - 1
    }
}

/// The index selected after one step of the cyclic forward search, with `k`
/// steps left to try: the first matching line after `from`, wrapping around.
pub open spec fn cyclic_next_match(lines: Seq<Seq<char>>, from: int, k: nat) -> Option<int>
    decreases k,
{
    if k == 0 || lines.len() == 0 {
        None
    } else {
        let idx = step_next(from, lines.len() as int);
        if line_matches(lines[idx]) {
            Some(idx)
        } else {
            cyclic_next_match(lines, idx, (k - 1) as nat)
        }
    }
}

/// The index selected after one step of the cyclic backward search.
pub open spec fn cyclic_prev_match(lines: Seq<Seq<char>>, from: int, k: nat) -> Option<int>
    decreases k,
{
    if k == 0 || lines.len() == 0 {
        None
    } else {
        let idx = step_prev(from, lines.len() as int);
        if line_matches(lines[idx]) {
            Some(idx)
        } else {
            cyclic_prev_match(lines, idx, (k - 1) as nat)
        }
    }
}

/// A successful cyclic forward search lands on a line that carries an image
/// reference, inside the line range.
pub proof fn lemma_cyclic_next_props(lines: Seq<Seq<char>>, from: int, k: nat)
    requires
        lines.len() == 0 || 0 <= from < lines.len(),
    ensures
        cyclic_next_match(lines, from, k) matches Some(i) ==> 0 <= i < lines.len()
            && line_matches(lines[i]),
    decreases k,
{
    if k > 0 && lines.len() > 0 {
        lemma_cyclic_next_props(lines, step_next(from, lines.len() as int), (k - 1) as nat);
    }
}

/// A successful cyclic backward search lands on a line that carries an image
/// reference, inside the line range.
pub proof fn lemma_cyclic_prev_props(lines: Seq<Seq<char>>, from: int, k: nat)
    requires
        lines.len() == 0 || 0 <= from < lines.len(),
    ensures
        cyclic_prev_match(lines, from, k) matches Some(i) ==> 0 <= i < lines.len()
            && line_matches(lines[i]),
    decreases k,
{
    if k > 0 && lines.len() > 0 {
        lemma_cyclic_prev_props(lines, step_prev(from, lines.len() as int), (k - 1) as nat);
    }
}

proof fn lemma_step_next_is_mod(from: int, n: int)
    requires
        n > 0,
        0 <= from < n,
    ensures
        step_next(from, n) == (from + 1) % n,
        0 <= step_next(from, n) < n,
{
    if from + 1 < n {
        lemma_small_mod((from + 1) as nat, n as nat);
    } else {
        lemma_mod_self_0(n);
    }
}

proof fn lemma_step_prev_is_mod(from: int, n: int)
    requires
        n > 0,
        0 <= from < n,
    ensures
        step_prev(from, n) == (from - 1) % n,
        0 <= step_prev(from, n) < n,
{
    if from > 0 {
        lemma_small_mod((from - 1) as nat, n as nat);
    } else {
        lemma_mod_multiples_vanish(-1, n - 1, n);
        lemma_small_mod((n - 1) as nat, n as nat);
    }
}

proof fn lemma_next_none_upto(lines: Seq<Seq<char>>, from: int, k: nat)
    requires
        lines.len() > 0,
        0 <= from < lines.len(),
        k <= lines.len(),
        cyclic_next_match(lines, from, k) is None,
    ensures
        forall|d: int|
            1 <= d <= k ==> !line_matches(#[trigger] lines[(from + d) % (lines.len() as int)]),
    decreases k,
{
    let n = lines.len() as int;
    if k > 0 {
        let idx = step_next(from, n);
        lemma_step_next_is_mod(from, n);
        lemma_next_none_upto(lines, idx, (k - 1) as nat);
        assert forall|d: int| 1 <= d <= k implies !line_matches(
            #[trigger] lines[(from + d) % n],
        ) by {
            if d == 1 {
                assert((from + 1) % n == idx);
            } else {
                lemma_small_mod((d - 1) as nat, n as nat);
                lemma_add_mod_noop(from + 1, d - 1, n);
                assert((idx + (d - 1)) % n == (from + d) % n);
                assert(!line_matches(lines[(idx + (d - 1)) % n]));
            }
        }
    }
}

proof fn lemma_prev_none_upto(lines: Seq<Seq<char>>, from: int, k: nat)
    requires
        lines.len() > 0,
        0 <= from < lines.len(),
        k <= lines.len(),
        cyclic_prev_match(lines, from, k) is None,
    ensures
        forall|d: int|
            1 <= d <= k ==> !line_matches(#[trigger] lines[(from - d) % (lines.len() as int)]),
    decreases k,
{
    let n = lines.len() as int;
    if k > 0 {
        let idx = step_prev(from, n);
        lemma_step_prev_is_mod(from, n);
        lemma_prev_none_upto(lines, idx, (k - 1) as nat);
        assert forall|d: int| 1 <= d <= k implies !line_matches(
            #[trigger] lines[(from - d) % n],
        ) by {
            if d == 1 {
                assert((from - 1) % n == idx);
            } else {
                lemma_add_mod_noop(from - 1, 1 - d, n);
                lemma_add_mod_noop_right(idx, 1 - d, n);
                assert((idx + (1 - d)) % n == (from - d) % n);
                assert(!line_matches(lines[(idx - (d - 1)) % n]));
            }
        }
    }
}

/// The forward search comes back empty exactly when no line carries an image
/// reference.
pub proof fn lemma_next_search_complete(lines: Seq<Seq<char>>, from: int)
    requires
        lines.len() > 0,
        0 <= from < lines.len(),
    ensures
        cyclic_next_match(lines, from, lines.len()) is None <==> (forall|i: int|
            0 <= i < lines.len() ==> !line_matches(#[trigger] lines[i])),
{
    let n = lines.len() as int;
    if cyclic_next_match(lines, from, lines.len()) is None {
        lemma_next_none_upto(lines, from, lines.len());
        assert forall|i: int| 0 <= i < n implies !line_matches(#[trigger] lines[i]) by {
            let d = if i > from {
                i - from
            } else {
                i - from + n
            };
            lemma_small_mod(i as nat, n as nat);
            if i <= from {
                lemma_mod_multiples_vanish(1, i, n);
            }
            assert((from + d) % n == i);
            assert(!line_matches(lines[(from + d) % n]));
        }
    } else {
        lemma_cyclic_next_props(lines, from, lines.len());
    }
}

/// The backward search comes back empty exactly when no line carries an
/// image reference.
pub proof fn lemma_prev_search_complete(lines: Seq<Seq<char>>, from: int)
    requires
        lines.len() > 0,
        0 <= from < lines.len(),
    ensures
        cyclic_prev_match(lines, from, lines.len()) is None <==> (forall|i: int|
            0 <= i < lines.len() ==> !line_matches(#[trigger] lines[i])),
{
    let n = lines.len() as int;
    if cyclic_prev_match(lines, from, lines.len()) is None {
        lemma_prev_none_upto(lines, from, lines.len());
        assert forall|i: int| 0 <= i < n implies !line_matches(#[trigger] lines[i]) by {
            let d = if i < from {
                from - i
            } else {
                from - i + n
            };
            lemma_small_mod(i as nat, n as nat);
            if i >= from {
                lemma_mod_multiples_vanish(-1, i, n);
            }
            assert((from - d) % n == i);
            assert(!line_matches(lines[(from - d) % n]));
        }
    } else {
        lemma_cyclic_prev_props(lines, from, lines.len());
    }
}

/// The lines of the service-definition file and the highlighted line.
pub struct ServiceSwitcher {
    pub lines: Vec<String>,
    pub selected: usize,
}

impl ServiceSwitcher {
    /// The highlighted index points at a line whenever there is one.
    pub open spec fn wf(&self) -> bool {
        self.lines@.len() > 0 ==> self.selected < self.lines@.len()
    }

    /// A switcher over the given lines, highlighting the first.
    pub fn new(lines: Vec<String>) -> (r: ServiceSwitcher)
        ensures
            r.lines == lines,
            r.selected == 0,
            r.wf(),
    {
        ServiceSwitcher { lines, selected: 0 }
    }

    /// Moves the highlight to the next line carrying an image reference,
    /// wrapping past the end; without any such line the highlight stays and
    /// the search reports failure.
    pub fn find_next_match(&mut self) -> (r: bool)
        requires
            old(self).wf(),
        ensures
            final(self).wf(),
            final(self).lines == old(self).lines,
            match cyclic_next_match(
                views_of(old(self).lines@),
                old(self).selected as int,
                old(self).lines@.len(),
            ) {
                Some(i) => r && final(self).selected == i,
                None => !r && final(self).selected == old(self).selected,
            },
    {
        let n = self.lines.len();
        if n == 0 {
            return false;
        }
        let ghost lv = views_of(self.lines@);
        let mut cur = self.selected;
        let mut remaining = n;
        loop
            invariant
                self.wf(),
                self.lines == old(self).lines,
                self.selected == old(self).selected,
                n == self.lines@.len(),
                n > 0,
                cur < n,
                remaining <= n,
                lv == views_of(self.lines@),
                cyclic_next_match(lv, self.selected as int, n as nat) == cyclic_next_match(
                    lv,
                    cur as int,
                    remaining as nat,
                ),
            decreases remaining,
        {
            if remaining == 0 {
                return false;
            }
            let idx = if cur == n - 1 {
                0
            } else {
                cur + 1
            };
            proof {
                assert(idx as int == step_next(cur as int, n as int));
            }
            if line_has_image(&self.lines, idx) {
                self.selected = idx;
                return true;
            }
            cur = idx;
            remaining = remaining - 1;
        }
    }

    /// Moves the highlight to the previous line carrying an image reference,
    /// wrapping past the start.
    pub fn find_previous_match(&mut self) -> (r: bool)
        requires
            old(self).wf(),
        ensures
            final(self).wf(),
            final(self).lines == old(self).lines,
            match cyclic_prev_match(
                views_of(old(self).lines@),
                old(self).selected as int,
                old(self).lines@.len(),
            ) {
                Some(i) => r && final(self).selected == i,
                None => !r && final(self).selected == old(self).selected,
            },
    {
        let n = self.lines.len();
        if n == 0 {
            return false;
        }
        let ghost lv = views_of(self.lines@);
        let mut cur = self.selected;
        let mut remaining = n;
        loop
            invariant
                self.wf(),
                self.lines == old(self).lines,
                self.selected == old(self).selected,
                n == self.lines@.len(),
                n > 0,
                cur < n,
                remaining <= n,
                lv == views_of(self.lines@),
                cyclic_prev_match(lv, self.selected as int, n as nat) == cyclic_prev_match(
                    lv,
                    cur as int,
                    remaining as nat,
                ),
            decreases remaining,
        {
            if remaining == 0 {
                return false;
            }
            let idx = if cur == 0 {
                n - 1
            } else {
                cur - 1
            };
            proof {
                assert(idx as int == step_prev(cur as int, n as int));
            }
            if line_has_image(&self.lines, idx) {
                self.selected = idx;
                return true;
            }
            cur = idx;
            remaining = remaining - 1;
        }
    }

    /// The image reference of the highlighted line: everything after the
    /// first image token. A line without the token has no reference.
    pub fn extract_repo(&self) -> (r: Result<String, Error>)
        requires
            self.wf(),
        ensures
            self.lines@.len() == 0 ==> (r matches Err(e) && e is NoMatch),
            self.lines@.len() > 0 ==> ({
                let line = views_of(self.lines@)[self.selected as int];
                if line_matches(line) {
                    r matches Ok(s) && exists|i: int|
                        #[trigger] match_at(line, image_pat(), i) && (forall|j: int|
                            0 <= j < i ==> !match_at(line, image_pat(), j)) && s@ == line.skip(
                            i + image_pat().len() as int,
                        )
                } else {
                    r matches Err(e) && e is NoMatch
                }
            }),
    {
        if self.lines.len() == 0 {
            return Err(Error::NoMatch);
        }
        let line = &self.lines[self.selected];
        proof {
            reveal_strlit("image: ");
        }
        match find_pattern(line.as_str(), "image: ") {
            Some(i) => {
                let end = line.as_str().unicode_len();
                let token = line.as_str().substring_char(i + 7, end);
                Ok(token.to_owned())
            },
            None => Err(Error::NoMatch),
        }
    }

    /// Replaces the image reference of the highlighted line with the given
    /// text, keeping everything up to the token; other lines stay untouched,
    /// and a line without the token stays whole.
    pub fn change_current_line(&mut self, new_text: String)
        requires
            old(self).wf(),
        ensures
            final(self).wf(),
            final(self).selected == old(self).selected,
            final(self).lines@.len() == old(self).lines@.len(),
            old(self).lines@.len() == 0 ==> final(self).lines == old(self).lines,
            old(self).lines@.len() > 0 ==> ({
                let lv = views_of(old(self).lines@);
                let line = lv[old(self).selected as int];
                if line_matches(line) {
                    exists|i: int|
                        #[trigger] match_at(line, image_pat(), i) && (forall|j: int|
                            0 <= j < i ==> !match_at(line, image_pat(), j)) && views_of(
                            final(self).lines@,
                        ) == lv.update(
                            old(self).selected as int,
                            line.take(i + image_pat().len() as int) + new_text@,
                        )
                } else {
                    final(self).lines == old(self).lines
                }
            }),
    {
        if self.lines.len() == 0 {
            return ;
        }
        let sel = self.selected;
        let line = &self.lines[sel];
        proof {
            reveal_strlit("image: ");
        }
        match find_pattern(line.as_str(), "image: ") {
            Some(i) => {
                let end = line.as_str().unicode_len();
                let mut prefix = line.as_str().substring_char(0, i + 7).to_owned();
                prefix.append(new_text.as_str());
                let ghost lv = views_of(self.lines@);
                self.lines[sel] = prefix;
                proof {
                    assert(views_of(self.lines@) =~= lv.update(sel as int, prefix@));
                }
            },
            None => {},
        }
    }
}

fn line_has_image(lines: &Vec<String>, idx: usize) -> (r: bool)
    requires
        idx < lines@.len(),
    ensures
        r == line_matches(views_of(lines@)[idx as int]),
{
    proof {
        reveal_strlit("image: ");
    }
    let line = &lines[idx];
    match find_pattern(line.as_str(), "image: ") {
        Some(_) => true,
        None => false,
    }
}

} // verus!
