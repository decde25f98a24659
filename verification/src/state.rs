use vstd::prelude::*;
use vstd::string::StringExecFns;

verus! {

/// The states of one update check. Only `Fetching`, `Fetched` and
/// `Starting` are ever entered; the remaining states are declared for a
/// download-and-install flow that has no transitions yet.
#[derive(Debug)]
pub enum UpdaterState {
    Fetching,
    Fetched(String),
    Downloading,
    Updating,
    Updated,
    Starting,
}

/// A user-initiated signal from the presentation layer.
#[derive(Debug, Clone)]
pub enum GuiMessage {
    StartPBC,
}

/// The events the state machine accepts: the one fetch finishing with
/// either the newer-version strings or an error text, or a user signal.
#[derive(Debug)]
pub enum UpdaterMessage {
    FetchedNewerVersions(Result<Vec<String>, String>),
    GuiMessage(GuiMessage),
}

/// One line per fetched version string, each closed by a newline, in
/// input order.
pub open spec fn spec_version_lines(versions: Seq<Seq<char>>) -> Seq<char>
    decreases versions.len(),
{
    if versions.len() == 0 {
        Seq::empty()
    } else {
        spec_version_lines(versions.drop_last()) + versions.last() + "\n"@
    }
}

/// The text shown once the fetch finished: on success, the fixed header
/// followed by the version lines (just the header where the list is
/// empty); on failure, the error text itself.
pub open spec fn spec_fetched_message(result: Result<Vec<String>, String>) -> Seq<char> {
    match result {
        Ok(versions) => "Found the following new versions: \n"@ + spec_version_lines(
            versions.deep_view(),
        ),
        Err(err) => err@,
    }
}

/// Builds the fetch-finished text: a pure function of the version list
/// and its order; nothing is sorted or deduplicated.
pub fn fetched_message(result: &Result<Vec<String>, String>) -> (r: String)
    ensures
        r@ == spec_fetched_message(*result),
{
    match result {
        Ok(versions) => {
            let ghost dv = versions.deep_view();
            let mut text: String = "Found the following new versions: \n".to_owned();
            let mut i: usize = 0;
            while i < versions.len()
                invariant
                    i <= versions.len(),
                    dv == versions.deep_view(),
                    text@ == "Found the following new versions: \n"@ + spec_version_lines(
                        dv.take(i as int),
                    ),
                decreases versions.len() - i,
            {
                text.append(versions[i].as_str());
                text.append("\n");
                proof {
                    assert(dv[i as int] == versions@[i as int]@);
                    assert(dv.take(i as int + 1).drop_last() =~= dv.take(i as int));
                    assert(dv.take(i as int + 1).last() == dv[i as int]);
                    assert(text@ =~= "Found the following new versions: \n"@ + spec_version_lines(
                        dv.take(i as int + 1),
                    ));
                }
                i = i + 1;
            }
            proof {
                assert(dv.take(versions@.len() as int) =~= dv);
            }
            text
        },
        Err(err) => err.clone(),
    }
}

/// The update-check state machine: it owns the current state, and the
/// state changes only through `update`.
pub struct Updater {
    pub state: UpdaterState,
}

impl Updater {
    /// A fresh checker starts out fetching; the caller schedules the one
    /// fetch whose completion it must hand back through `update`.
    pub fn new() -> (u: Updater)
        ensures
            u.state is Fetching,
    {
        Updater { state: UpdaterState::Fetching }
    }

    /// The window title.
    pub fn title(&self) -> (t: String)
        ensures
            t@ == "PBC Updater"@,
    {
        "PBC Updater".to_owned()
    }

    /// One step of the state machine. A finished fetch, successful or
    /// not, puts the machine in `Fetched` with the message text; a start
    /// signal puts it in `Starting` unconditionally, whatever the state
    /// was. The result says whether the caller should now launch the
    /// external application; launch failures are the caller's to swallow.
    pub fn update(&mut self, message: UpdaterMessage) -> (launch: bool)
        ensures
            (match message {
                UpdaterMessage::FetchedNewerVersions(result) => final(self).state matches
                    UpdaterState::Fetched(m) && m@ == spec_fetched_message(result),
                UpdaterMessage::GuiMessage(GuiMessage::StartPBC) => final(self).state is Starting,
            }),
            launch == (message is FetchedNewerVersions),
    {
        match message {
            UpdaterMessage::FetchedNewerVersions(result) => {
                let text = fetched_message(&result);
                self.state = UpdaterState::Fetched(text);
                true
            },
            UpdaterMessage::GuiMessage(gui) => {
                match gui {
                    GuiMessage::StartPBC => {
                        self.state = UpdaterState::Starting;
                    },
                }
                false
            },
        }
    }

    /// The text the presentation layer shows for the current state; the
    /// states without transitions fall back to a fixed apology.
    pub fn display_text(&self) -> (t: String)
        ensures
            match self.state {
                UpdaterState::Fetching => t@ == "Fetching versions from Github"@,
                UpdaterState::Fetched(m) => t@ == m@,
                UpdaterState::Starting => t@ == "Starting PBC now..."@,
                _ => t@ == "Whoopsie, something went wrong"@,
            },
    {
        match &self.state {
            UpdaterState::Fetching => "Fetching versions from Github".to_owned(),
            UpdaterState::Fetched(m) => m.clone(),
            UpdaterState::Starting => "Starting PBC now...".to_owned(),
            _ => "Whoopsie, something went wrong".to_owned(),
        }
    }
}

} // verus!
