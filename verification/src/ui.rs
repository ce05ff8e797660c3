//! The interaction core: the three-state dispatcher and the widget record it
//! drives. All terminal, network and file work stays with the caller, which
//! feeds key events in and carries the returned actions out.

use vstd::prelude::*;

verus! {

use vstd::string::StringExecFns;

use crate::info::Details;
use crate::info::Info;
use crate::repo_entry::RepoEntry;
use crate::service_switcher::cyclic_next_match;
use crate::service_switcher::cyclic_prev_match;
use crate::service_switcher::image_pat;
use crate::service_switcher::lemma_cyclic_next_props;
use crate::service_switcher::lemma_cyclic_prev_props;
use crate::service_switcher::line_matches;
use crate::service_switcher::ServiceSwitcher;
use crate::strings::match_at;
use crate::strings::views_of;
use crate::tag_list::detail_lines_spec;
use crate::tag_list::moved_selection;
use crate::tag_list::tag_rows;
use crate::tag_list::TagLine;
use crate::tag_list::TagList;
use crate::tags::all_ascii;
use crate::tags::ascii_char;
use crate::tags::error_message;
use crate::tags::normalized_repo;
use crate::tags::spec_request_url;
use crate::tags::Error;
use crate::tags::Tags;

/// Which widget receives input: the cycle EditRepo, SelectTag, SelectService.
#[derive(Clone, Copy, Debug, PartialEq, Eq, Structural)]
pub enum State {
    EditRepo,
    SelectTag,
    SelectService,
}

impl State {
    /// The state that follows in the cycle.
    pub open spec fn spec_next(self) -> State {
        match self {
            State::EditRepo => State::SelectTag,
            State::SelectTag => State::SelectService,
            State::SelectService => State::EditRepo,
        }
    }

    /// Advances to the next state of the cycle.
    pub fn next(&self) -> (r: State)
        ensures
            r == self.spec_next(),
    {
        match self {
            State::EditRepo => State::SelectTag,
            State::SelectTag => State::SelectService,
            State::SelectService => State::EditRepo,
        }
    }

    /// The contextual hint shown for the state.
    pub open spec fn hint(self) -> Seq<char> {
        match self {
            State::EditRepo => "Edit repository"@,
            State::SelectTag => "Select a tag"@,
            State::SelectService => "Select a image"@,
        }
    }

    /// Renders the contextual hint for the state.
    pub fn hint_text(&self) -> (r: String)
        ensures
            r@ == self.hint(),
    {
        match self {
            State::EditRepo => String::from_str("Edit repository"),
            State::SelectTag => String::from_str("Select a tag"),
            State::SelectService => String::from_str("Select a image"),
        }
    }
}

/// The successor function cycles: three steps return to the starting state.
pub proof fn lemma_state_cycle(s: State)
    ensures
        s.spec_next().spec_next().spec_next() == s,
{
}

/// A decoded key event, as the terminal listener hands it over.
#[derive(Clone, Copy, Debug, PartialEq, Eq, Structural)]
pub enum Key {
    Quit,
    Save,
    Cycle,
    Confirm,
    Char(char),
    Backspace,
    Up,
    Down,
    Other,
}

/// What the caller must do after a dispatch step.
pub enum Action {
    Continue,
    Quit,
    Save,
    Fetch(String),
}

/// The whole interaction state: the dispatcher's mode and every widget.
pub struct Ui {
    pub state: State,
    pub repo: RepoEntry,
    pub tags: TagList,
    pub services: ServiceSwitcher,
    pub details: Details,
    pub info: Info,
}

/// The tag listing shows the placeholder row of a fetch under way, replacing
/// every earlier row.
pub open spec fn fetch_pending_tags(tags: TagList) -> bool {
    &&& tags.lines@.len() == 1
    &&& tags.lines@[0] matches TagLine::Status(m) && m@ == "Fetching Tags"@
    &&& tags.selected is None
}

/// Nothing changed but the status bar, which shows the given message.
pub open spec fn info_error_spec(pre: Ui, post: Ui, act: Action, msg: Seq<char>) -> bool {
    &&& act is Continue
    &&& post.state == pre.state
    &&& post.repo == pre.repo
    &&& post.tags == pre.tags
    &&& post.services == pre.services
    &&& post.details == pre.details
    &&& post.info.text@ == msg
}

/// Confirming the repository editor: a valid buffer is normalized, written
/// back, and fetched; an invalid one only routes its error to the status bar.
pub open spec fn confirm_edit_spec(pre: Ui, post: Ui, act: Action) -> bool {
    let name = pre.repo.text@;
    &&& post.state == pre.state
    &&& post.services == pre.services
    &&& post.details == pre.details
    &&& if all_ascii(name) {
        let norm = normalized_repo(name);
        &&& post.repo.text@ == norm
        &&& fetch_pending_tags(post.tags)
        &&& post.info == pre.info
        &&& act matches Action::Fetch(u) && u@ == spec_request_url(norm)
    } else {
        &&& post.repo == pre.repo
        &&& post.tags == pre.tags
        &&& exists|c: char|
            !ascii_char(c) && (exists|i: int| 0 <= i < name.len() && name[i] == c)
                && post.info.text@ == error_message(Error::InvalidCharacter(c))
        &&& act is Continue
    }
}

/// Selecting a pagination placeholder: the fetch for its cursor is requested
/// and the listing shows the placeholder row of a fetch under way.
pub open spec fn page_fetch_spec(pre: Ui, post: Ui, act: Action, url: Seq<char>) -> bool {
    &&& post.state == pre.state
    &&& post.repo == pre.repo
    &&& post.services == pre.services
    &&& post.details == pre.details
    &&& post.info == pre.info
    &&& fetch_pending_tags(post.tags)
    &&& act matches Action::Fetch(u) && u@ == url
}

/// Confirming a tag row: the tag's name, preceded by a colon, is appended to
/// the highlighted line's image reference; without a usable line only the
/// status bar changes.
pub open spec fn splice_spec(pre: Ui, post: Ui, act: Action, tag: Seq<char>) -> bool {
    let lv = views_of(pre.services.lines@);
    let sel = pre.services.selected as int;
    &&& act is Continue
    &&& post.state == pre.state
    &&& post.repo == pre.repo
    &&& post.tags == pre.tags
    &&& post.details == pre.details
    &&& if pre.services.lines@.len() > 0 && line_matches(lv[sel]) {
        &&& post.info == pre.info
        &&& post.services.selected == pre.services.selected
        &&& views_of(post.services.lines@) == lv.update(sel, lv[sel] + ":"@ + tag)
    } else {
        &&& post.services == pre.services
        &&& post.info.text@ == error_message(Error::NoMatch)
    }
}

/// Confirming the tag listing, by the highlighted row: a tag is spliced, a
/// pagination placeholder is fetched, anything else reports no selection.
pub open spec fn confirm_tag_spec(pre: Ui, post: Ui, act: Action) -> bool {
    match pre.tags.selected {
        None => info_error_spec(pre, post, act, error_message(Error::NoSelection)),
        Some(si) => match pre.tags.lines@[si as int] {
            TagLine::Status(_) => info_error_spec(pre, post, act, error_message(Error::NoSelection)),
            TagLine::NextPage(c) => page_fetch_spec(pre, post, act, c@),
            TagLine::PrevPage(c) => page_fetch_spec(pre, post, act, c@),
            TagLine::Tag(img) => splice_spec(pre, post, act, img.tag_name@),
        },
    }
}

/// After a successful service move: the new line's reference is read out,
/// normalized, and fetched; an invalid reference only routes its error to
/// the status bar.
pub open spec fn service_fetch_spec(pre: Ui, post: Ui, act: Action, line: Seq<char>) -> bool {
    exists|i: int|
        #[trigger] match_at(line, image_pat(), i) && (forall|j: int|
            0 <= j < i ==> !match_at(line, image_pat(), j)) && ({
            let token = line.skip(i + image_pat().len() as int);
            if all_ascii(token) {
                let norm = normalized_repo(token);
                &&& post.repo.text@ == norm
                &&& fetch_pending_tags(post.tags)
                &&& post.info == pre.info
                &&& act matches Action::Fetch(u) && u@ == spec_request_url(norm)
            } else {
                &&& post.repo == pre.repo
                &&& post.tags == pre.tags
                &&& exists|c: char|
                    !ascii_char(c) && post.info.text@ == error_message(Error::InvalidCharacter(c))
                &&& act is Continue
            }
        })
}

/// Moving through the service lines: the highlight lands on the found line
/// and its reference is fetched; with no line to find, nothing moves and the
/// status bar reports it.
pub open spec fn service_move_spec(pre: Ui, post: Ui, act: Action, found: Option<int>) -> bool {
    &&& post.state == pre.state
    &&& post.details == pre.details
    &&& post.services.lines == pre.services.lines
    &&& match found {
        None => {
            &&& act is Continue
            &&& post.services.selected == pre.services.selected
            &&& post.repo == pre.repo
            &&& post.tags == pre.tags
            &&& post.info.text@ == error_message(Error::NoMatch)
        },
        Some(i) => {
            &&& post.services.selected == i
            &&& service_fetch_spec(pre, post, act, views_of(pre.services.lines@)[i])
        },
    }
}

/// Moving through the tag rows: the cursor takes one bounded step and the
/// details pane follows the new highlight.
pub open spec fn tag_move_spec(pre: Ui, post: Ui, act: Action, key: Key) -> bool {
    let nsel = moved_selection(pre.tags.selected, pre.tags.lines@.len(), key);
    &&& act is Continue
    &&& post.state == pre.state
    &&& post.repo == pre.repo
    &&& post.services == pre.services
    &&& post.info == pre.info
    &&& post.tags.lines == pre.tags.lines
    &&& post.tags.selected == nsel
    &&& match nsel {
        Some(i) => views_of(post.details.lines@) == detail_lines_spec(pre.tags.lines@[i as int]),
        None => post.details.lines@.len() == 0,
    }
}

/// The whole dispatch table, keyed by the pending key and the current state.
pub open spec fn dispatch_spec(pre: Ui, post: Ui, key: Key, act: Action) -> bool {
    match key {
        Key::Quit => post == pre && act is Quit,
        Key::Save => post == pre && act is Save,
        Key::Cycle => {
            &&& act is Continue
            &&& post.state == pre.state.spec_next()
            &&& post.repo == pre.repo
            &&& post.tags == pre.tags
            &&& post.services == pre.services
            &&& post.details == pre.details
            &&& post.info.text@ == pre.state.spec_next().hint()
        },
        Key::Confirm => match pre.state {
            State::EditRepo => confirm_edit_spec(pre, post, act),
            State::SelectTag => confirm_tag_spec(pre, post, act),
            State::SelectService => post == pre && act is Continue,
        },
        Key::Char(c) => match pre.state {
            State::EditRepo => {
                &&& act is Continue
                &&& post.state == pre.state
                &&& post.repo.text@ == pre.repo.text@.push(c)
                &&& post.tags == pre.tags
                &&& post.services == pre.services
                &&& post.details == pre.details
                &&& post.info.text@ == "Editing Repository"@
            },
            _ => post == pre && act is Continue,
        },
        Key::Backspace => match pre.state {
            State::EditRepo => {
                &&& act is Continue
                &&& post.state == pre.state
                &&& (pre.repo.text@.len() == 0 ==> post.repo.text@ == pre.repo.text@)
                &&& (pre.repo.text@.len() > 0 ==> post.repo.text@ == pre.repo.text@.drop_last())
                &&& post.tags == pre.tags
                &&& post.services == pre.services
                &&& post.details == pre.details
                &&& post.info.text@ == "Editing Repository"@
            },
            _ => post == pre && act is Continue,
        },
        Key::Up => match pre.state {
            State::SelectService => service_move_spec(
                pre,
                post,
                act,
                cyclic_prev_match(
                    views_of(pre.services.lines@),
                    pre.services.selected as int,
                    pre.services.lines@.len(),
                ),
            ),
            State::SelectTag => tag_move_spec(pre, post, act, Key::Up),
            State::EditRepo => post == pre && act is Continue,
        },
        Key::Down => match pre.state {
            State::SelectService => service_move_spec(
                pre,
                post,
                act,
                cyclic_next_match(
                    views_of(pre.services.lines@),
                    pre.services.selected as int,
                    pre.services.lines@.len(),
                ),
            ),
            State::SelectTag => tag_move_spec(pre, post, act, Key::Down),
            State::EditRepo => post == pre && act is Continue,
        },
        Key::Other => post == pre && act is Continue,
    }
}

impl Ui {
    /// Every widget's own invariant holds.
    pub open spec fn wf(&self) -> bool {
        &&& self.tags.wf()
        &&& self.services.wf()
    }

    /// Dispatches one key event against the current state, mutating the
    /// widgets and returning what the caller must do next.
    pub fn dispatch(&mut self, key: Key) -> (act: Action)
        requires
            old(self).wf(),
        ensures
            final(self).wf(),
            dispatch_spec(*old(self), *final(self), key, act),
    {
        match key {
            Key::Quit => Action::Quit,
            Key::Save => Action::Save,
            Key::Cycle => {
                let ns = self.state.next();
                self.state = ns;
                self.info.set_text(ns.hint_text());
                Action::Continue
            },
            Key::Confirm => match self.state {
                State::EditRepo => self.confirm_edit(),
                State::SelectTag => self.confirm_tag(),
                State::SelectService => Action::Continue,
            },
            Key::Char(c) => {
                if let State::EditRepo = self.state {
                    self.info.set_text(String::from_str("Editing Repository"));
                    self.repo.insert_char(c);
                }
                Action::Continue
            },
            Key::Backspace => {
                if let State::EditRepo = self.state {
                    self.info.set_text(String::from_str("Editing Repository"));
                    self.repo.backspace();
                }
                Action::Continue
            },
            Key::Up => match self.state {
                State::SelectService => self.service_move(false),
                State::SelectTag => {
                    self.tags.handle_input(Key::Up);
                    self.details = self.tags.create_detail_widget();
                    Action::Continue
                },
                State::EditRepo => Action::Continue,
            },
            Key::Down => match self.state {
                State::SelectService => self.service_move(true),
                State::SelectTag => {
                    self.tags.handle_input(Key::Down);
                    self.details = self.tags.create_detail_widget();
                    Action::Continue
                },
                State::EditRepo => Action::Continue,
            },
            Key::Other => Action::Continue,
        }
    }

    fn confirm_edit(&mut self) -> (act: Action)
        requires
            old(self).wf(),
            old(self).state is EditRepo,
        ensures
            final(self).wf(),
            confirm_edit_spec(*old(self), *final(self), act),
    {
        let name = self.repo.get();
        match Tags::check_repo(name) {
            Ok(norm) => {
                self.repo.set(norm.clone());
                self.tags = TagList::with_status(String::from_str("Fetching Tags"));
                let url = crate::tags::request_url(norm.as_str());
                Action::Fetch(url)
            },
            Err(e) => {
                self.info.set_text(e.message());
                Action::Continue
            },
        }
    }

    fn confirm_tag(&mut self) -> (act: Action)
        requires
            old(self).wf(),
            old(self).state is SelectTag,
        ensures
            final(self).wf(),
            confirm_tag_spec(*old(self), *final(self), act),
    {
        match self.tags.get_selected() {
            Ok(tag) => match self.services.extract_repo() {
                Ok(token) => {
                    let mut new_ref = token;
                    crate::strings::push_char(&mut new_ref, ':');
                    new_ref.append(tag.as_str());
                    let ghost lv = views_of(self.services.lines@);
                    let ghost sel = self.services.selected as int;
                    self.services.change_current_line(new_ref);
                    proof {
                        let line = lv[sel];
                        let i = choose|i: int|
                            #[trigger] match_at(line, image_pat(), i) && (forall|j: int|
                                0 <= j < i ==> !match_at(line, image_pat(), j)) && views_of(
                                final(self).services.lines@,
                            ) == lv.update(sel, line.take(i + image_pat().len() as int) + new_ref@);
                        reveal_strlit(":");
                        assert(line.take(i + image_pat().len() as int) + new_ref@ =~= line + ":"@
                            + tag@);
                    }
                    Action::Continue
                },
                Err(e) => {
                    self.info.set_text(e.message());
                    Action::Continue
                },
            },
            Err(e) => match e {
                Error::NextPageSelected => {
                    let cursor = self.tags.selected_cursor();
                    match cursor {
                        Some(url) => {
                            self.tags = TagList::with_status(String::from_str("Fetching Tags"));
                            Action::Fetch(url)
                        },
                        None => {
                            self.info.set_text(e.message());
                            Action::Continue
                        },
                    }
                },
                _ => {
                    self.info.set_text(e.message());
                    Action::Continue
                },
            },
        }
    }

    fn service_move(&mut self, forward: bool) -> (act: Action)
        requires
            old(self).wf(),
        ensures
            final(self).wf(),
            service_move_spec(
                *old(self),
                *final(self),
                act,
                if forward {
                    cyclic_next_match(
                        views_of(old(self).services.lines@),
                        old(self).services.selected as int,
                        old(self).services.lines@.len(),
                    )
                } else {
                    cyclic_prev_match(
                        views_of(old(self).services.lines@),
                        old(self).services.selected as int,
                        old(self).services.lines@.len(),
                    )
                },
            ),
    {
        proof {
            if forward {
                lemma_cyclic_next_props(
                    views_of(self.services.lines@),
                    self.services.selected as int,
                    self.services.lines@.len(),
                );
            } else {
                lemma_cyclic_prev_props(
                    views_of(self.services.lines@),
                    self.services.selected as int,
                    self.services.lines@.len(),
                );
            }
        }
        let moved = if forward {
            self.services.find_next_match()
        } else {
            self.services.find_previous_match()
        };
        if moved {
            match self.services.extract_repo() {
                Ok(s) => match Tags::check_repo(s) {
                    Ok(norm) => {
                        self.repo.set(norm.clone());
                        self.tags = TagList::with_status(String::from_str("Fetching Tags"));
                        let url = crate::tags::request_url(norm.as_str());
                        Action::Fetch(url)
                    },
                    Err(e) => {
                        self.info.set_text(e.message());
                        Action::Continue
                    },
                },
                Err(e) => {
                    self.info.set_text(e.message());
                    Action::Continue
                },
            }
        } else {
            self.info.set_text(Error::NoMatch.message());
            Action::Continue
        }
    }

    /// Takes the outcome of the requested fetch: the listing is replaced in
    /// full, by the page's rows on success, by a single status row carrying
    /// the error message on failure; everything else stays as it was.
    pub fn fetch_finished(&mut self, result: Result<Tags, Error>)
        requires
            old(self).wf(),
        ensures
            final(self).wf(),
            final(self).state == old(self).state,
            final(self).repo == old(self).repo,
            final(self).services == old(self).services,
            final(self).details == old(self).details,
            final(self).info == old(self).info,
            match result {
                Ok(t) => final(self).tags.lines@ == tag_rows(t) && final(self).tags.selected == (
                if tag_rows(t).len() == 0 {
                    Option::<usize>::None
                } else {
                    Some(0usize)
                }),
                Err(e) => final(self).tags.lines@.len() == 1 && (final(self).tags.lines@[0] matches
                    TagLine::Status(m) && m@ == error_message(e)) && final(self).tags.selected
                    is None,
            },
    {
        match result {
            Ok(t) => {
                self.tags = TagList::from_tags(t);
            },
            Err(e) => {
                self.tags = TagList::with_status(e.message());
            },
        }
    }

    /// Takes the outcome of the requested save: the held lines stay exactly
    /// as they were either way, and only the status bar reports the result.
    pub fn save_finished(&mut self, result: Result<(), String>)
        requires
            old(self).wf(),
        ensures
            final(self).wf(),
            final(self).state == old(self).state,
            final(self).repo == old(self).repo,
            final(self).tags == old(self).tags,
            final(self).services == old(self).services,
            final(self).details == old(self).details,
            match result {
                Ok(_) => final(self).info.text@ == "Saved compose file"@,
                Err(m) => final(self).info.text@ == error_message(Error::SaveFailure(m)),
            },
    {
        match result {
            Ok(_) => {
                self.info.set_text(String::from_str("Saved compose file"));
            },
            Err(m) => {
                let e = Error::SaveFailure(m);
                self.info.set_text(e.message());
            },
        }
    }
}

/// Builds the interaction state over the service-definition lines, when the
/// file was there to read; without one there is nothing to drive.
pub fn create_ui(service_lines: Option<Vec<String>>, initial_repo: Option<String>) -> (r: Option<
    Ui,
>)
    ensures
        match service_lines {
            None => r is None,
            Some(lines) => r matches Some(ui) && ui.wf() && ui.state == State::SelectService
                && ui.services.lines == lines && ui.services.selected == 0 && (match initial_repo {
                Some(s) => ui.repo.text@ == s@,
                None => ui.repo.text@ == Seq::<char>::empty(),
            }) && ui.tags.lines@.len() == 1 && (ui.tags.lines@[0] matches TagLine::Status(m) && m@
                == "Tags are empty"@) && ui.tags.selected is None && ui.details.lines@.len() == 0
                && ui.info.text@ == "Select image of edit Repository"@,
        },
{
    match service_lines {
        None => None,
        Some(lines) => Some(
            Ui {
                state: State::SelectService,
                repo: RepoEntry::new(initial_repo),
                tags: TagList::with_status(String::from_str("Tags are empty")),
                services: ServiceSwitcher::new(lines),
                details: Details::new(),
                info: Info::new("Select image of edit Repository"),
            },
        ),
    }
}

} // verus!
