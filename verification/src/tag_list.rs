//! The tag listing: fetched rows, pagination placeholders, and a bounded cursor.

use vstd::prelude::*;

verus! {

use vstd::string::StringExecFns;

use crate::info::Details;
use crate::strings::dec_str;
use crate::strings::u64_to_dec;
use crate::strings::views_of;
use crate::tags::display_line_spec;
use crate::tags::error_message;
use crate::tags::Error;
use crate::tags::ImageDetails;
use crate::tags::Images;
use crate::tags::Tags;
use crate::ui::Key;

/// One row of the tag listing.
pub enum TagLine {
    Status(String),
    Tag(Images),
    NextPage(String),
    PrevPage(String),
}

/// The tag listing widget: rows plus an optional highlighted row.
pub struct TagList {
    pub lines: Vec<TagLine>,
    pub selected: Option<usize>,
}

/// The rows a fetched page turns into: a backward placeholder when the page
/// has a predecessor, one row per tag, and a forward placeholder when it has
/// a successor.
pub open spec fn tag_rows(t: Tags) -> Seq<TagLine> {
    let base = t.results@.map_values(|img: Images| TagLine::Tag(img));
    let with_prev = match t.prev_page {
        Some(p) => seq![TagLine::PrevPage(p)] + base,
        None => base,
    };
    match t.next_page {
        Some(n) => with_prev + seq![TagLine::NextPage(n)],
        None => with_prev,
    }
}

/// Where the cursor stands after one Up or Down, clamped to the row range.
pub open spec fn moved_selection(sel: Option<usize>, n: nat, key: Key) -> Option<usize> {
    match sel {
        None => None,
        Some(i) => match key {
            Key::Up => if i > 0 {
                Some((i - 1) as usize)
            } else {
                Some(i)
            },
            Key::Down => if i + 1 < n {
                Some((i + 1) as usize)
            } else {
                Some(i)
            },
            _ => Some(i),
        },
    }
}

/// Navigation never selects outside the available row range: from an
/// in-range cursor, any key leaves the cursor in range.
pub proof fn lemma_navigation_in_bounds(sel: Option<usize>, n: nat, key: Key)
    requires
        sel matches Some(i) ==> i < n,
    ensures
        moved_selection(sel, n, key) matches Some(j) ==> j < n,
{
}

/// One line of the details pane: architecture, operating system and size.
pub open spec fn detail_line_spec(d: ImageDetails) -> Seq<char> {
    d.architecture@ + " "@ + d.os@ + " "@ + dec_str(d.size as nat)
}

/// What the details pane shows for a row: one line per architecture of a tag
/// row, nothing for any other row.
pub open spec fn detail_lines_spec(l: TagLine) -> Seq<Seq<char>> {
    match l {
        TagLine::Tag(img) => img.images@.map_values(|d: ImageDetails| detail_line_spec(d)),
        _ => Seq::empty(),
    }
}

/// What a row sequence displays as at time `now`.
pub open spec fn displayed(lines: Seq<TagLine>, now: i64) -> Seq<Seq<char>> {
    lines.map_values(|l: TagLine| display_of_line(l, now))
}

/// What one row displays as at time `now`.
pub open spec fn display_of_line(l: TagLine, now: i64) -> Seq<char> {
    match l {
        TagLine::Status(s) => s@,
        TagLine::Tag(img) => display_line_spec(img, now),
        TagLine::NextPage(_) => "-> next page"@,
        TagLine::PrevPage(_) => "<- previous page"@,
    }
}

impl TagList {
    /// The cursor, when set, points at a row.
    pub open spec fn wf(&self) -> bool {
        match self.selected {
            Some(i) => i < self.lines@.len(),
            None => true,
        }
    }

    /// A listing showing a single status row, with nothing selected.
    pub fn with_status(msg: String) -> (r: TagList)
        ensures
            r.lines@.len() == 1,
            r.lines@[0] == TagLine::Status(msg),
            r.selected is None,
            r.wf(),
    {
        let mut lines: Vec<TagLine> = Vec::new();
        lines.push(TagLine::Status(msg));
        TagList { lines, selected: None }
    }

    /// The listing for a fetched page, with the first row highlighted.
    pub fn from_tags(t: Tags) -> (r: TagList)
        ensures
            r.lines@ == tag_rows(t),
            r.selected == if tag_rows(t).len() == 0 {
                Option::<usize>::None
            } else {
                Some(0usize)
            },
            r.wf(),
    {
        let Tags { next_page, prev_page, mut results } = t;
        let mut lines: Vec<TagLine> = Vec::new();
        if let Some(p) = prev_page {
            lines.push(TagLine::PrevPage(p));
        }
        let ghost base = lines@;
        let ghost orig = results@;
        while results.len() > 0
            invariant
                results@.len() <= orig.len(),
                lines@ == base + orig.take(orig.len() - results@.len()).map_values(
                    |img: Images| TagLine::Tag(img),
                ),
                results@ == orig.skip(orig.len() - results@.len()),
            decreases results@.len(),
        {
            let ghost k = orig.len() - results@.len();
            let img = results.remove(0);
            proof {
                assert(orig.skip(k as int)[0] == orig[k as int]);
                assert(results@ =~= orig.skip(k + 1));
                assert(orig.take(k + 1) =~= orig.take(k as int).push(orig[k as int]));
                assert(orig.take(k + 1).map_values(|im: Images| TagLine::Tag(im)) =~= orig.take(
                    k as int,
                ).map_values(|im: Images| TagLine::Tag(im)).push(TagLine::Tag(orig[k as int])));
            }
            lines.push(TagLine::Tag(img));
        }
        proof {
            assert(orig.take(orig.len() as int) =~= orig);
        }
        if let Some(n) = next_page {
            lines.push(TagLine::NextPage(n));
        }
        proof {
            assert(lines@ =~= tag_rows(t));
        }
        let selected = if lines.len() == 0 {
            None
        } else {
            Some(0usize)
        };
        TagList { lines, selected }
    }

    /// Moves the highlighted row one step, staying inside the row range.
    pub fn handle_input(&mut self, key: Key)
        requires
            old(self).wf(),
        ensures
            final(self).wf(),
            final(self).lines == old(self).lines,
            final(self).selected == moved_selection(
                old(self).selected,
                old(self).lines@.len(),
                key,
            ),
    {
        match key {
            Key::Up => {
                if let Some(i) = self.selected {
                    if i > 0 {
                        self.selected = Some(i - 1);
                    }
                }
            },
            Key::Down => {
                if let Some(i) = self.selected {
                    if i < self.lines.len() - 1 {
                        self.selected = Some(i + 1);
                    }
                }
            },
            _ => {},
        }
    }

    /// The name of the highlighted tag; selecting a pagination placeholder or
    /// anything but a tag row fails.
    pub fn get_selected(&self) -> (r: Result<String, Error>)
        requires
            self.wf(),
        ensures
            match self.selected {
                None => r matches Err(e) && e is NoSelection,
                Some(i) => match self.lines@[i as int] {
                    TagLine::Tag(img) => r matches Ok(s) && s@ == img.tag_name@,
                    TagLine::NextPage(_) => r matches Err(e) && e is NextPageSelected,
                    TagLine::PrevPage(_) => r matches Err(e) && e is NextPageSelected,
                    TagLine::Status(_) => r matches Err(e) && e is NoSelection,
                },
            },
    {
        match self.selected {
            None => Err(Error::NoSelection),
            Some(i) => match &self.lines[i] {
                TagLine::Tag(img) => Ok(img.tag_name.clone()),
                TagLine::NextPage(_) => Err(Error::NextPageSelected),
                TagLine::PrevPage(_) => Err(Error::NextPageSelected),
                TagLine::Status(_) => Err(Error::NoSelection),
            },
        }
    }

    /// The cursor of the highlighted pagination placeholder, if one is
    /// highlighted.
    pub fn selected_cursor(&self) -> (r: Option<String>)
        requires
            self.wf(),
        ensures
            match self.selected {
                None => r is None,
                Some(i) => match self.lines@[i as int] {
                    TagLine::NextPage(c) => r matches Some(u) && u@ == c@,
                    TagLine::PrevPage(c) => r matches Some(u) && u@ == c@,
                    _ => r is None,
                },
            },
    {
        match self.selected {
            None => None,
            Some(i) => match &self.lines[i] {
                TagLine::NextPage(c) => Some(c.clone()),
                TagLine::PrevPage(c) => Some(c.clone()),
                _ => None,
            },
        }
    }

    /// Projects the highlighted tag's architectures into a details pane.
    pub fn create_detail_widget(&self) -> (r: Details)
        requires
            self.wf(),
        ensures
            match self.selected {
                Some(i) => views_of(r.lines@) == detail_lines_spec(self.lines@[i as int]),
                None => r.lines@.len() == 0,
            },
    {
        let mut out: Vec<String> = Vec::new();
        if let Some(i) = self.selected {
            if let TagLine::Tag(img) = &self.lines[i] {
                let mut j: usize = 0;
                while j < img.images.len()
                    invariant
                        j <= img.images@.len(),
                        views_of(out@) == img.images@.take(j as int).map_values(
                            |d: ImageDetails| detail_line_spec(d),
                        ),
                    decreases img.images@.len() - j,
                {
                    let d = &img.images[j];
                    let line = d.architecture.clone().concat(" ").concat(d.os.as_str()).concat(
                        " ",
                    ).concat(u64_to_dec(d.size as u64).as_str());
                    proof {
                        assert(line@ =~= detail_line_spec(img.images@[j as int]));
                        assert(img.images@.take(j + 1) =~= img.images@.take(j as int).push(
                            img.images@[j as int],
                        ));
                        assert(img.images@.take(j + 1).map_values(
                            |d: ImageDetails| detail_line_spec(d),
                        ) =~= img.images@.take(j as int).map_values(
                            |d: ImageDetails| detail_line_spec(d),
                        ).push(detail_line_spec(img.images@[j as int])));
                        assert(views_of(out@.push(line)) =~= views_of(out@).push(line@));
                    }
                    out.push(line);
                    j += 1;
                }
                proof {
                    assert(img.images@.take(img.images@.len() as int) =~= img.images@);
                }
            }
        }
        proof {
            if self.selected is Some {
                let i = self.selected->0;
                if !(self.lines@[i as int] is Tag) {
                    assert(views_of(out@) =~= detail_lines_spec(self.lines@[i as int]));
                }
            }
        }
        Details { lines: out }
    }

    /// Renders every row for display at time `now`.
    pub fn display_lines(&self, now_secs: i64) -> (r: Vec<String>)
        ensures
            views_of(r@) == self.lines@.map_values(|l: TagLine| display_of_line(l, now_secs)),
    {
        let mut out: Vec<String> = Vec::new();
        let mut j: usize = 0;
        while j < self.lines.len()
            invariant
                j <= self.lines@.len(),
                views_of(out@) == self.lines@.take(j as int).map_values(
                    |l: TagLine| display_of_line(l, now_secs),
                ),
            decreases self.lines@.len() - j,
        {
            let line = match &self.lines[j] {
                TagLine::Status(s) => s.clone(),
                TagLine::Tag(img) => img.display_line(now_secs),
                TagLine::NextPage(_) => String::from_str("-> next page"),
                TagLine::PrevPage(_) => String::from_str("<- previous page"),
            };
            proof {
                assert(line@ == display_of_line(self.lines@[j as int], now_secs));
                assert(self.lines@.take(j + 1) =~= self.lines@.take(j as int).push(
                    self.lines@[j as int],
                ));
                assert(self.lines@.take(j + 1).map_values(
                    |l: TagLine| display_of_line(l, now_secs),
                ) =~= self.lines@.take(j as int).map_values(
                    |l: TagLine| display_of_line(l, now_secs),
                ).push(display_of_line(self.lines@[j as int], now_secs)));
                assert(views_of(out@.push(line)) =~= views_of(out@).push(line@));
            }
            out.push(line);
            j += 1;
        }
        proof {
            assert(self.lines@.take(self.lines@.len() as int) =~= self.lines@);
        }
        out
    }

    /// Renders every row at the current time; which instant is read is up to
    /// the clock, so only existence of such an instant is promised.
    pub fn rendered_lines(&self) -> (r: Vec<String>)
        ensures
            exists|now: i64| views_of(r@) == #[trigger] displayed(self.lines@, now),
    {
        let now = crate::tags::now_epoch_secs();
        let r = self.display_lines(now);
        proof {
            assert(views_of(r@) == displayed(self.lines@, now));
        }
        r
    }
}

} // verus!
