use vstd::prelude::*;
use crate::flow::FlowTable;
use crate::packet::Device;

verus! {

/// The state of a capture.
#[derive(Debug, Clone, PartialEq, Eq)]
pub enum RunStatus {
    /// No capture is going on: the state at the start and after a report is saved.
    Stop,
    /// The capture is paused and can be resumed.
    Wait,
    /// The capture is collecting frames from the interface.
    Running,
    /// A task of the capture failed.
    Error(String),
}

/// The errors of the sniffer's operations.
#[derive(Debug, Clone, PartialEq, Eq)]
pub enum SnifferError {
    /// The capture library failed, with its message.
    PcapError(String),
    /// A frame could not be decoded.
    DecodeError(String),
    /// A precondition of the operation does not hold.
    UserError(String),
    /// The operation does not apply in the current state.
    UserWarning(String),
}

impl SnifferError {
    /// The message that the error carries, as a prompt shows it.
    pub fn message(&self) -> (r: String)
        ensures
            r@ == match self {
                SnifferError::PcapError(m) => m@,
                SnifferError::DecodeError(m) => m@,
                SnifferError::UserError(m) => m@,
                SnifferError::UserWarning(m) => m@,
            },
    {
        match self {
            SnifferError::PcapError(m) => m.clone(),
            SnifferError::DecodeError(m) => m.clone(),
            SnifferError::UserError(m) => m.clone(),
            SnifferError::UserWarning(m) => m.clone(),
        }
    }
}

/// `r` is the user error with message `msg`.
pub open spec fn is_user_error<T>(r: Result<T, SnifferError>, msg: Seq<char>) -> bool {
    r matches Err(SnifferError::UserError(m)) && m@ == msg
}

/// `r` is the user warning with message `msg`.
pub open spec fn is_user_warning<T>(r: Result<T, SnifferError>, msg: Seq<char>) -> bool {
    r matches Err(SnifferError::UserWarning(m)) && m@ == msg
}

/// The sniffer: the interface, the report file and interval, the state of the capture and
/// the flow table.
///
/// Its operations move the capture between the states: `run` from `Stop` to `Running`,
/// `pause` from `Running` to `Wait`, `resume` back, `save_report` from `Running` or `Wait`
/// to `Stop`, and `fail` from any state to `Error`. Any other request is refused with a
/// warning and changes nothing.
pub struct Sniffer {
    device: Option<Device>,
    status: RunStatus,
    file: Option<String>,
    time_interval: u64,
    hashmap: FlowTable,
}

impl Sniffer {
    pub closed spec fn status_view(&self) -> RunStatus {
        self.status
    }

    pub closed spec fn device_view(&self) -> Option<Device> {
        self.device
    }

    pub closed spec fn file_view(&self) -> Option<String> {
        self.file
    }

    pub closed spec fn interval_view(&self) -> u64 {
        self.time_interval
    }

    /// Everything but the state of the capture is as in `other`.
    pub open spec fn same_setup(&self, other: &Sniffer) -> bool {
        &&& self.device_view() == other.device_view()
        &&& self.file_view() == other.file_view()
        &&& self.interval_view() == other.interval_view()
    }

    pub fn new() -> (r: Sniffer)
        ensures
            r.status_view() == RunStatus::Stop,
            r.device_view() is None,
            r.file_view() is None,
            r.interval_view() == 0,
    {
        Sniffer {
            device: None,
            status: RunStatus::Stop,
            file: None,
            time_interval: 0,
            hashmap: FlowTable::new(),
        }
    }

    /// The state of the capture.
    pub fn get_status(&self) -> (r: RunStatus)
        ensures
            r == self.status_view(),
    {
        match &self.status {
            RunStatus::Stop => RunStatus::Stop,
            RunStatus::Wait => RunStatus::Wait,
            RunStatus::Running => RunStatus::Running,
            RunStatus::Error(m) => RunStatus::Error(m.clone()),
        }
    }

    /// Selects the interface to capture on, which must be one of `available` (the
    /// interfaces that the capture library lists); devices are told apart by name.
    pub fn attach(&mut self, device: Device, available: &Vec<Device>) -> (r: Result<(), SnifferError>)
        ensures
            r is Ok <==> exists|i: int|
                0 <= i < available@.len() && (#[trigger] available@[i]).name@ == device.name@,
            r is Ok ==> final(self).device_view() == Some(device),
            r is Err ==> is_user_error(r, "The device selected is not in list ..."@)
                && final(self).device_view() == old(self).device_view(),
            final(self).status_view() == old(self).status_view(),
            final(self).file_view() == old(self).file_view(),
            final(self).interval_view() == old(self).interval_view(),
    {
        let mut i: usize = 0;
        while i < available.len()
            invariant
                i <= available@.len(),
                *self == *old(self),
                forall|j: int| 0 <= j < i ==> (#[trigger] available@[j]).name@ != device.name@,
            decreases available@.len() - i,
        {
            if available[i].name == device.name {
                self.device = Some(device);
                return Ok(());
            }
            i = i + 1;
        }
        Err(SnifferError::UserError("The device selected is not in list ...".to_string()))
    }

    /// Starts a capture: from `Stop`, with a file and a device set, the state becomes
    /// `Running`.
    pub fn run(&mut self) -> (r: Result<(), SnifferError>)
        ensures
            final(self).same_setup(old(self)),
            match old(self).status_view() {
                RunStatus::Stop => if old(self).file_view() is None {
                    is_user_error(r, "File is null ..."@) && final(self).status_view()
                        == RunStatus::Stop
                } else if old(self).device_view() is None {
                    is_user_error(r, "You have to specify a device ..."@) && final(self).status_view()
                        == RunStatus::Stop
                } else {
                    r is Ok && final(self).status_view() == RunStatus::Running
                },
                RunStatus::Error(_) => is_user_warning(
                    r,
                    "Internal error. Try to instantiate a new sniffer object."@,
                ) && final(self).status_view() == old(self).status_view(),
                _ => is_user_warning(r, "Another scanning is already running ..."@)
                    && final(self).status_view() == old(self).status_view(),
            },
    {
        match &self.status {
            RunStatus::Stop => {
                if self.file.is_none() {
                    return Err(SnifferError::UserError("File is null ...".to_string()));
                }
                if self.device.is_none() {
                    return Err(SnifferError::UserError("You have to specify a device ...".to_string()));
                }
                self.status = RunStatus::Running;
                Ok(())
            },
            RunStatus::Error(_) => Err(
                SnifferError::UserWarning(
                    "Internal error. Try to instantiate a new sniffer object.".to_string(),
                ),
            ),
            _ => Err(SnifferError::UserWarning("Another scanning is already running ...".to_string())),
        }
    }

    /// Starts a capture that also writes the report at every interval: as `run`, once an
    /// interval has been set.
    pub fn run_with_interval(&mut self) -> (r: Result<(), SnifferError>)
        ensures
            final(self).same_setup(old(self)),
            old(self).interval_view() == 0 ==> is_user_error(
                r,
                "You have to specify a time interval ..."@,
            ) && final(self).status_view() == old(self).status_view(),
            old(self).interval_view() != 0 ==> match old(self).status_view() {
                RunStatus::Stop => if old(self).file_view() is None {
                    is_user_error(r, "File is null ..."@) && final(self).status_view()
                        == RunStatus::Stop
                } else if old(self).device_view() is None {
                    is_user_error(r, "You have to specify a device ..."@) && final(self).status_view()
                        == RunStatus::Stop
                } else {
                    r is Ok && final(self).status_view() == RunStatus::Running
                },
                RunStatus::Error(_) => is_user_warning(
                    r,
                    "Internal error. Try to instantiate a new sniffer object."@,
                ) && final(self).status_view() == old(self).status_view(),
                _ => is_user_warning(r, "Another scanning is already running ..."@)
                    && final(self).status_view() == old(self).status_view(),
            },
    {
        if self.time_interval == 0 {
            return Err(SnifferError::UserError("You have to specify a time interval ...".to_string()));
        }
        self.run()
    }

    /// Pauses a running capture.
    pub fn pause(&mut self) -> (r: Result<(), SnifferError>)
        ensures
            final(self).same_setup(old(self)),
            match old(self).status_view() {
                RunStatus::Running => r is Ok && final(self).status_view() == RunStatus::Wait,
                RunStatus::Stop => is_user_warning(r, "There is no scanning in execution ..."@)
                    && final(self).status_view() == RunStatus::Stop,
                RunStatus::Wait => is_user_warning(r, "The scanning is already paused ..."@)
                    && final(self).status_view() == RunStatus::Wait,
                RunStatus::Error(e) => is_user_error(r, e@) && final(self).status_view()
                    == old(self).status_view(),
            },
    {
        match &self.status {
            RunStatus::Error(e) => Err(SnifferError::UserError(e.clone())),
            RunStatus::Running => {
                self.status = RunStatus::Wait;
                Ok(())
            },
            RunStatus::Stop => Err(SnifferError::UserWarning("There is no scanning in execution ...".to_string())),
            RunStatus::Wait => Err(SnifferError::UserWarning("The scanning is already paused ...".to_string())),
        }
    }

    /// Resumes a paused capture.
    pub fn resume(&mut self) -> (r: Result<(), SnifferError>)
        ensures
            final(self).same_setup(old(self)),
            match old(self).status_view() {
                RunStatus::Wait => r is Ok && final(self).status_view() == RunStatus::Running,
                RunStatus::Stop => is_user_warning(r, "There is no scanning in execution ..."@)
                    && final(self).status_view() == RunStatus::Stop,
                RunStatus::Running => is_user_warning(r, "The scanning is already running ..."@)
                    && final(self).status_view() == RunStatus::Running,
                RunStatus::Error(e) => is_user_error(r, e@) && final(self).status_view()
                    == old(self).status_view(),
            },
    {
        match &self.status {
            RunStatus::Error(e) => Err(SnifferError::UserError(e.clone())),
            RunStatus::Wait => {
                self.status = RunStatus::Running;
                Ok(())
            },
            RunStatus::Stop => Err(SnifferError::UserWarning("There is no scanning in execution ...".to_string())),
            RunStatus::Running => Err(SnifferError::UserWarning("The scanning is already running ...".to_string())),
        }
    }

    /// A task of the capture failed: the state becomes `Error` with its message.
    pub fn fail(&mut self, msg: String)
        ensures
            final(self).same_setup(old(self)),
            final(self).status_view() == RunStatus::Error(msg),
    {
        self.status = RunStatus::Error(msg);
    }

    /// Ends the capture once its report has been written: `written` is the outcome of the
    /// write. From `Running` or `Wait`, with a file set and the report written, the state
    /// becomes `Stop`; a failed write is a user error with its message.
    pub fn save_report(&mut self, written: Result<(), String>) -> (r: Result<String, SnifferError>)
        ensures
            final(self).same_setup(old(self)),
            r is Ok ==> final(self).status_view() == RunStatus::Stop,
            r is Err ==> final(self).status_view() == old(self).status_view(),
            !(old(self).status_view() is Error) && old(self).file_view() is Some && written is Ok
                ==> final(self).status_view() == RunStatus::Stop,
            match old(self).status_view() {
                RunStatus::Error(e) => is_user_error(r, e@),
                RunStatus::Stop => is_user_warning(r, "The scanning is already stopped ..."@),
                _ => if old(self).file_view() is None {
                    is_user_error(r, "The file doesn't exist ..."@)
                } else {
                    match written {
                        Ok(_) => r matches Ok(m) && m@
                            == "The report has been saved and the scanning has been stopped ..."@,
                        Err(m) => is_user_error(r, m@),
                    }
                },
            },
    {
        match &self.status {
            RunStatus::Error(e) => Err(SnifferError::UserError(e.clone())),
            RunStatus::Stop => Err(SnifferError::UserWarning("The scanning is already stopped ...".to_string())),
            _ => {
                if self.file.is_none() {
                    return Err(SnifferError::UserError("The file doesn't exist ...".to_string()));
                }
                match written {
                    Ok(_) => {
                        self.status = RunStatus::Stop;
                        Ok("The report has been saved and the scanning has been stopped ...".to_string())
                    },
                    Err(m) => Err(SnifferError::UserError(m)),
                }
            },
        }
    }

    /// The report interval in seconds; zero where the report is written on demand only.
    pub fn get_time_interval(&self) -> (r: u64)
        ensures
            r == self.interval_view(),
    {
        self.time_interval
    }

    pub fn set_time_interval(&mut self, time_interval: u64)
        ensures
            final(self).interval_view() == time_interval,
            final(self).status_view() == old(self).status_view(),
            final(self).device_view() == old(self).device_view(),
            final(self).file_view() == old(self).file_view(),
    {
        self.time_interval = time_interval;
    }

    /// The name of the report file, if one has been set.
    pub fn get_file(&self) -> (r: Option<String>)
        ensures
            r == self.file_view(),
    {
        self.file.clone()
    }

    /// Sets the report file, by name; the caller creates or truncates it.
    pub fn set_file(&mut self, filename: String) -> (r: Result<(), SnifferError>)
        ensures
            r is Ok,
            final(self).file_view() == Some(filename),
            final(self).status_view() == old(self).status_view(),
            final(self).device_view() == old(self).device_view(),
            final(self).interval_view() == old(self).interval_view(),
    {
        self.file = Some(filename);
        Ok(())
    }

    /// The interface that has been attached, if any.
    pub fn get_device(&self) -> (r: &Option<Device>)
        ensures
            *r == self.device_view(),
    {
        &self.device
    }

    /// A handle on the flow table, shared with the tasks of the capture.
    pub fn get_hashmap(&self) -> (r: &FlowTable) {
        &self.hashmap
    }
}

} // verus!
