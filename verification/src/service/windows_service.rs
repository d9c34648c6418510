//! What is made of the answers of the operating system: which of them are
//! failures, and what text the others hold.

use crate::service::hook_driver::StartupFatal;
use crate::service::ResolutionFailure;
use crate::timestamp::in_range;
use crate::timestamp::Timestamp;
use crate::timestamp::NANOS_PER_MILLI;
use vstd::prelude::*;

verus! {

/// The decisions taken on what the operating system reports.
pub struct WindowsService {}

/// The length of the buffer into which the path of an executable is read.
pub const MAX_PATH: usize = 260;

/// The text that `units` encode in UTF-16, with U+FFFD in the place of each
/// unit that is not part of a valid encoding.
pub uninterp spec fn utf16_lossy(units: Seq<u16>) -> Seq<char>;

/// Decodes UTF-16 with `String::from_utf16_lossy`, which never fails: what
/// cannot be decoded is replaced.
#[verifier::external_body]
fn decode_utf16(units: &[u16]) -> (text: String)
    ensures
        text@ == utf16_lossy(units@),
{
    String::from_utf16_lossy(units)
}

/// Removes the last character of `text` with `String::pop`, and returns it;
/// an empty text stays as it is.
#[verifier::external_body]
fn pop_char(text: &mut String) -> (popped: Option<char>)
    ensures
        old(text)@.len() > 0 ==> popped == Some(old(text)@.last()) && final(text)@ == old(
            text,
        )@.drop_last(),
        old(text)@.len() == 0 ==> popped is None && final(text)@ == old(text)@,
{
    text.pop()
}

/// `items` without its last item, if it has one.
pub open spec fn without_last<T>(items: Seq<T>) -> Seq<T> {
    if items.len() > 0 {
        items.drop_last()
    } else {
        items
    }
}

impl WindowsService {
    /// Passes on the handle of the messaging window that was asked for. No
    /// window was created when the handle is 0; `last_error` is then the
    /// error code to report.
    pub fn create_messaging_window(window: isize, last_error: u32) -> (created: Result<
        isize,
        StartupFatal,
    >)
        ensures
            created == if window == 0 {
                Err::<isize, StartupFatal>(StartupFatal::MessagingWindow { code: last_error })
            } else {
                Ok::<isize, StartupFatal>(window)
            },
    {
        if window == 0 {
            Err(StartupFatal::MessagingWindow { code: last_error })
        } else {
            Ok(window)
        }
    }

    /// The length of the buffer that takes a window title of `text_length`
    /// units and the terminator behind it. A window that reports no length
    /// has no title to read.
    pub fn window_title_capacity(text_length: i32) -> (capacity: Result<usize, ResolutionFailure>)
        ensures
            capacity == if text_length <= 0 {
                Err::<usize, ResolutionFailure>(ResolutionFailure::WindowTitleLength)
            } else {
                Ok::<usize, ResolutionFailure>((text_length + 1) as usize)
            },
    {
        if text_length <= 0 {
            Err(ResolutionFailure::WindowTitleLength)
        } else {
            Ok(text_length as usize + 1)
        }
    }

    /// The title that the window wrote into `buffer`, when it reports to
    /// have copied `copied_length` units: the text of the buffer without its
    /// last unit, which holds the terminator. Nothing was read when nothing
    /// was copied.
    pub fn get_window_title(buffer: Vec<u16>, copied_length: i32) -> (title: Result<
        String,
        ResolutionFailure,
    >)
        ensures
            title is Err <==> copied_length == 0,
            title matches Err(failure) ==> failure == ResolutionFailure::WindowTitle,
            title matches Ok(text) ==> text@ == utf16_lossy(without_last(buffer@)),
    {
        if copied_length == 0 {
            return Err(ResolutionFailure::WindowTitle);
        }
        let mut buffer = buffer;
        buffer.pop();
        Ok(decode_utf16(buffer.as_slice()))
    }

    /// The process that owns a window, when the lookup of the window's
    /// thread returned `thread_id` and stored `process_id`. No owner was
    /// found when the thread is 0.
    pub fn get_process_id(thread_id: u32, process_id: u32) -> (pid: Result<u32, ResolutionFailure>)
        ensures
            pid == if thread_id == 0 {
                Err::<u32, ResolutionFailure>(ResolutionFailure::ProcessId)
            } else {
                Ok::<u32, ResolutionFailure>(process_id)
            },
    {
        if thread_id == 0 {
            Err(ResolutionFailure::ProcessId)
        } else {
            Ok(process_id)
        }
    }

    /// The handle of a process that was asked to open, if it did open.
    pub fn get_process_handle(opened: Option<isize>) -> (handle: Result<isize, ResolutionFailure>)
        ensures
            handle == match opened {
                Some(process_handle) => Ok::<isize, ResolutionFailure>(process_handle),
                None => Err::<isize, ResolutionFailure>(ResolutionFailure::ProcessHandle),
            },
    {
        match opened {
            Some(process_handle) => Ok(process_handle),
            None => Err(ResolutionFailure::ProcessHandle),
        }
    }

    /// The path that the process wrote into `buffer`, when it reports a path
    /// of `path_length` units: the text of that many units from the start.
    /// Nothing was read when the length is 0.
    pub fn get_process_executable_path(buffer: Vec<u16>, path_length: u32) -> (path: Result<
        String,
        ResolutionFailure,
    >)
        requires
            path_length <= buffer.len(),
        ensures
            path is Err <==> path_length == 0,
            path matches Err(failure) ==> failure == ResolutionFailure::ExecutablePath,
            path matches Ok(text) ==> text@ == utf16_lossy(buffer@.take(path_length as int)),
    {
        if path_length == 0 {
            return Err(ResolutionFailure::ExecutablePath);
        }
        let mut buffer = buffer;
        buffer.truncate(path_length as usize);
        Ok(decode_utf16(buffer.as_slice()))
    }

    /// The length of the buffer that takes the version information of an
    /// executable, when it reports `size` bytes of it. An executable that
    /// reports none has no version information to read.
    pub fn version_info_capacity(size: u32) -> (capacity: Result<usize, ResolutionFailure>)
        ensures
            capacity == if size == 0 {
                Err::<usize, ResolutionFailure>(ResolutionFailure::VersionInfoSize)
            } else {
                Ok::<usize, ResolutionFailure>(size as usize)
            },
    {
        if size == 0 {
            Err(ResolutionFailure::VersionInfoSize)
        } else {
            Ok(size as usize)
        }
    }

    /// Whether the version information was read into its buffer.
    pub fn version_info_read(read: bool) -> (done: Result<(), ResolutionFailure>)
        ensures
            done == if read {
                Ok::<(), ResolutionFailure>(())
            } else {
                Err::<(), ResolutionFailure>(ResolutionFailure::VersionInfo)
            },
    {
        if read {
            Ok(())
        } else {
            Err(ResolutionFailure::VersionInfo)
        }
    }

    /// The display title of an application, from the file description in its
    /// version information, if it has one: the text of `description` without
    /// the terminator that follows it.
    pub fn get_app_title(description: Option<Vec<u16>>) -> (title: Result<
        String,
        ResolutionFailure,
    >)
        ensures
            title is Err <==> description is None,
            title matches Err(failure) ==> failure == ResolutionFailure::AppTitle,
            title matches Ok(text) ==> text@ == without_last(utf16_lossy(description->0@)),
    {
        match description {
            Some(units) => Ok(Self::without_terminator(decode_utf16(units.as_slice()))),
            None => Err(ResolutionFailure::AppTitle),
        }
    }

    /// `text` without its last character, the terminator.
    pub fn without_terminator(text: String) -> (title: String)
        ensures
            title@ == without_last(text@),
    {
        let mut text = text;
        pop_char(&mut text);
        text
    }

    /// The instant at which the system started, to the millisecond: `now`,
    /// cut to whole milliseconds, less the `uptime_millis` for which the
    /// system has been up. There is none when that instant lies before the
    /// first that a timestamp can hold.
    pub fn get_startup_timestamp(now: &Timestamp, uptime_millis: u64) -> (started: Option<
        Timestamp,
    >)
        ensures
            started is Some <==> in_range(startup_nanos(now@, uptime_millis as int)),
            started matches Some(at) ==> at@ == startup_nanos(now@, uptime_millis as int),
    {
        let now_millis = now.unix_millis();
        let started: i128 = now_millis as i128 - uptime_millis as i128;
        if started < i64::MIN as i128 {
            return None;
        }
        Timestamp::from_unix_millis(started as i64)
    }
}

/// Nanoseconds from the epoch to the last whole millisecond that is
/// `uptime_millis` milliseconds before the instant `now_nanos`.
pub open spec fn startup_nanos(now_nanos: int, uptime_millis: int) -> int {
    (now_nanos / (NANOS_PER_MILLI as int) - uptime_millis) * (NANOS_PER_MILLI as int)
}

} // verus!
