use crate::error::{Error, ErrorKind};
use vstd::prelude::*;
use vstd::string::*;

verus! {

/// What a look at a file watcher finds.
#[derive(Debug, PartialEq, Eq, Structural, Clone, Copy)]
pub enum WatchEvent {
    /// The file was written.
    Write,
    /// The file was created.
    Create,
    /// Something else happened to the file.
    Other,
    /// Nothing has happened.
    Empty,
    /// The watcher is gone.
    Disconnected,
}

/// The time in milliseconds for which a file watcher collects changes before
/// it reports them as one.
pub const WATCH_DEBOUNCE_MILLIS: u64 = 200;

/// Who watches: the message of an error says so.
#[derive(Debug, PartialEq, Eq, Structural, Clone, Copy)]
pub enum Watcher {
    FileStream,
    ResourceWatch,
}

/// What is said when a watcher is gone.
pub open spec fn disconnect_message(watcher: Watcher) -> Seq<char> {
    match watcher {
        Watcher::FileStream => "FileStream::try_recv got unexpected disconnect"@,
        Watcher::ResourceWatch => "ResourceWatch::stream_to rx.try_recv got unexpected disconnect"@,
    }
}

/// Decides when a watched file is to be read: at the first look in any case,
/// after that whenever the file was written or created.
#[derive(Debug, PartialEq, Eq, Structural, Clone, Copy)]
pub struct FileWatch {
    pub watcher: Watcher,
    /// The next look reads the file whatever it finds.
    pub force_load: bool,
}

impl FileWatch {
    pub fn new(watcher: Watcher) -> (watch: FileWatch)
        ensures
            watch == (FileWatch { watcher, force_load: true }),
    {
        FileWatch { watcher, force_load: true }
    }

    /// Takes in what a look at the watcher found and says whether the file is
    /// to be read now. A watcher that is gone is an error, and leaves
    /// everything as it is.
    pub fn try_recv(&mut self, event: WatchEvent) -> (read: Result<bool, Error>)
        ensures
            match read {
                Ok(read) => {
                    &&& event != WatchEvent::Disconnected
                    &&& read == (old(self).force_load || event == WatchEvent::Write || event
                        == WatchEvent::Create)
                    &&& *final(self) == (FileWatch {
                        watcher: old(self).watcher,
                        force_load: old(self).force_load && !read,
                    })
                },
                Err(error) => {
                    &&& event == WatchEvent::Disconnected
                    &&& *final(self) == *old(self)
                    &&& error.cause is None
                    &&& error.kind matches ErrorKind::Bug(text) && text@ == disconnect_message(
                        old(self).watcher,
                    )
                },
            },
    {
        let should_read = match event {
            WatchEvent::Write | WatchEvent::Create => true,
            WatchEvent::Other | WatchEvent::Empty => false,
            WatchEvent::Disconnected => {
                return Err(
                    match self.watcher {
                        Watcher::FileStream => Error::bug(
                            "FileStream::try_recv got unexpected disconnect",
                        ),
                        Watcher::ResourceWatch => Error::bug(
                            "ResourceWatch::stream_to rx.try_recv got unexpected disconnect",
                        ),
                    },
                );
            },
        };
        if self.force_load || should_read {
            self.force_load = false;
            Ok(true)
        } else {
            Ok(false)
        }
    }
}

} // verus!
