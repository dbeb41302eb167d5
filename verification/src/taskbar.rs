//! The identity of the main taskbar window, checked to belong to Explorer.
use vstd::prelude::*;

use crate::text::{ascii_lower_seq, chars_equal, chars_of, equal_ignore_ascii_case, push_str};

verus! {

/// The main taskbar window, checked to be owned by `explorer.exe`.
#[derive(Debug, Clone, Copy, PartialEq, Eq, Structural)]
pub struct TaskbarIdentity {
    handle: u64,
    explorer_process_id: u32,
}

impl TaskbarIdentity {
    pub closed spec fn spec_handle(&self) -> u64 {
        self.handle
    }

    pub closed spec fn spec_explorer_process_id(&self) -> u32 {
        self.explorer_process_id
    }

    /// The raw window handle, for the taskbar measurements that follow.
    pub fn handle(&self) -> (r: u64)
        ensures
            r == self.spec_handle(),
    {
        self.handle
    }

    /// The window handle as a number that may be shown in diagnostics.
    pub fn handle_value(&self) -> (r: u64)
        ensures
            r == self.spec_handle(),
    {
        self.handle
    }

    /// The id of the Explorer process that owns the taskbar.
    pub fn explorer_process_id(&self) -> (r: u32)
        ensures
            r == self.spec_explorer_process_id(),
    {
        self.explorer_process_id
    }
}

/// What is known about the process that owns a window: the file name of its
/// executable (if the path has one) and the path as it is displayed.
pub struct ProcessImage {
    pub file_name: Option<String>,
    pub display_path: String,
}

/// `explorer.exe`, compared without regard to ASCII case.
pub open spec fn is_explorer_file_name(name: Seq<char>) -> bool {
    ascii_lower_seq(name) == ascii_lower_seq("explorer.exe"@)
}

pub open spec fn owner_unreadable_message() -> Seq<char> {
    "无法读取主任务栏所属进程"@
}

pub open spec fn not_explorer_prefix() -> Seq<char> {
    "Shell_TrayWnd 不属于 explorer.exe："@
}

/// Accepts the window found by class name `Shell_TrayWnd` as the main taskbar
/// only when it belongs to `explorer.exe`.
///
/// `query_image` reads the owner process's executable path; it is called only
/// when the window's thread and process ids were read.
pub fn find_main_taskbar<F: FnOnce(u32) -> Result<ProcessImage, String>>(
    handle: u64,
    thread_id: u32,
    process_id: u32,
    query_image: F,
) -> (r: Result<TaskbarIdentity, String>)
    requires
        thread_id != 0 && process_id != 0 ==> query_image.requires((process_id,)),
    ensures
        (thread_id == 0 || process_id == 0) ==> (r matches Err(e) && e@
            == owner_unreadable_message()),
        (thread_id != 0 && process_id != 0) ==> exists|q: Result<ProcessImage, String>|
            {
                &&& #[trigger] query_image.ensures((process_id,), q)
                &&& match q {
                    Err(e) => (r matches Err(e2) && e2@ == e@),
                    Ok(image) => {
                        let is_explorer = match image.file_name {
                            Some(n) => is_explorer_file_name(n@),
                            None => false,
                        };
                        if is_explorer {
                            (r matches Ok(t) && t.spec_handle() == handle
                                && t.spec_explorer_process_id() == process_id)
                        } else {
                            (r matches Err(e) && e@ == not_explorer_prefix()
                                + image.display_path@)
                        }
                    },
                }
            },
{
    if thread_id == 0 || process_id == 0 {
        return Err("无法读取主任务栏所属进程".to_owned());
    }
    let queried = query_image(process_id);
    let ghost q = queried;
    let image = match queried {
        Ok(image) => image,
        Err(error) => {
            assert(query_image.ensures((process_id,), q));
            return Err(error);
        },
    };
    let is_explorer = match &image.file_name {
        Some(name) => {
            let name_chars = chars_of(name.as_str());
            let explorer = chars_of("explorer.exe");
            equal_ignore_ascii_case(name_chars.as_slice(), explorer.as_slice())
        },
        None => false,
    };
    if !is_explorer {
        let mut message = "Shell_TrayWnd 不属于 explorer.exe：".to_owned();
        push_str(&mut message, image.display_path.as_str());
        assert(query_image.ensures((process_id,), q));
        return Err(message);
    }
    assert(query_image.ensures((process_id,), q));
    Ok(TaskbarIdentity { handle, explorer_process_id: process_id })
}

/// The taskbar that hosts the bar: the first secondary taskbar whose monitor
/// is the one named in the settings (its index among `secondary_monitor_ids`),
/// or `None` for the main taskbar.
pub fn choose_taskbar(target_monitor: &str, secondary_monitor_ids: &[String]) -> (r: Option<usize>)
    ensures
        r matches Some(i) ==> i < secondary_monitor_ids@.len() && secondary_monitor_ids@[i as int]@
            == target_monitor@ && forall|j: int|
            0 <= j < i ==> (#[trigger] secondary_monitor_ids@[j])@ != target_monitor@,
        r is None ==> forall|j: int|
            0 <= j < secondary_monitor_ids@.len() ==> (#[trigger] secondary_monitor_ids@[j])@
                != target_monitor@,
{
    let target = chars_of(target_monitor);
    let mut i: usize = 0;
    while i < secondary_monitor_ids.len()
        invariant
            i <= secondary_monitor_ids@.len(),
            target@ == target_monitor@,
            forall|j: int| 0 <= j < i ==> (#[trigger] secondary_monitor_ids@[j])@ != target_monitor@,
        decreases secondary_monitor_ids.len() - i,
    {
        let id = chars_of(secondary_monitor_ids[i].as_str());
        if chars_equal(id.as_slice(), target.as_slice()) {
            return Some(i);
        }
        i += 1;
    }
    None
}

} // verus!
