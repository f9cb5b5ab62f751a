use crate::driver::filled_count;
use crate::driver::logs_call;
use crate::driver::reported_count;
use crate::driver::same_config;
use crate::driver::CallRecord;
use crate::driver::StubDriver;
use crate::handles::Device;
use crate::handles::Instance;
use crate::status::QueryError;
use crate::status::Status;
use crate::symbols::video_queue_symbol_list;
use crate::symbols::video_queue_symbols;
use crate::symbols::IDX_BIND_VIDEO_SESSION_MEMORY;
use crate::symbols::IDX_CMD_BEGIN_VIDEO_CODING;
use crate::symbols::IDX_CMD_CONTROL_VIDEO_CODING;
use crate::symbols::IDX_CMD_END_VIDEO_CODING;
use crate::symbols::IDX_CREATE_VIDEO_SESSION;
use crate::symbols::IDX_CREATE_VIDEO_SESSION_PARAMETERS;
use crate::symbols::IDX_DESTROY_VIDEO_SESSION;
use crate::symbols::IDX_DESTROY_VIDEO_SESSION_PARAMETERS;
use crate::symbols::IDX_GET_PHYSICAL_DEVICE_VIDEO_CAPABILITIES;
use crate::symbols::IDX_GET_PHYSICAL_DEVICE_VIDEO_FORMAT_PROPERTIES;
use crate::symbols::IDX_GET_VIDEO_SESSION_MEMORY_REQUIREMENTS;
use crate::symbols::IDX_UPDATE_VIDEO_SESSION_PARAMETERS;
use crate::table::FunctionTable;
use vstd::prelude::*;

verus! {

/// Proxy for the video-session management extension family: capability
/// queries and session lifecycle, scoped to a device-level owning handle,
/// with symbols resolved through the owning instance's loader.
#[derive(Clone)]
pub struct VideoQueue {
    pub handle: u64,
    pub fp: FunctionTable,
}

impl VideoQueue {
    /// The proxy carries one table slot per required symbol.
    pub open spec fn wf(self) -> bool {
        self.fp@.len() == video_queue_symbols().len()
    }

    /// Builds the proxy for the given owning context: resolves each required
    /// symbol exactly once, in the family's fixed order, through the
    /// context's loader, and retains the device handle.  Construction never
    /// fails; a symbol the loader does not know leaves a null slot whose
    /// invocation the operations' preconditions rule out.
    pub fn new(entry: &mut StubDriver, instance: &Instance, device: &Device) -> (p: VideoQueue)
        ensures
            p.wf(),
            p.handle == device.handle,
            forall|i: int|
                0 <= i < video_queue_symbols().len() ==> p.fp@[i] == old(entry).addr_of(
                    #[trigger] video_queue_symbols()[i],
                ),
            same_config(*old(entry), *final(entry)),
            final(entry).call_log@ == old(entry).call_log@,
            final(entry).resolve_log@ == old(entry).resolve_log@ + video_queue_symbols(),
    {
        let symbols = video_queue_symbol_list();
        let fp = FunctionTable::load(entry, instance.handle(), &symbols);
        VideoQueue { handle: device.handle(), fp }
    }

    /// Forwards the capabilities query for `video_profile` on `pdevice` and
    /// writes the driver's reported value into `capabilities`.  The driver's
    /// status is surfaced unmodified: success exactly when it is zero.
    pub fn get_physical_device_video_capabilities(
        &self,
        driver: &mut StubDriver,
        pdevice: u64,
        video_profile: u64,
        capabilities: &mut u64,
    ) -> (r: Result<(), Status>)
        requires
            self.wf(),
            self.fp@[IDX_GET_PHYSICAL_DEVICE_VIDEO_CAPABILITIES as int] != 0,
        ensures
            logs_call(
                *old(driver),
                *final(driver),
                (CallRecord {
                    addr: self.fp@[IDX_GET_PHYSICAL_DEVICE_VIDEO_CAPABILITIES as int],
                    context: pdevice,
                    arg: video_profile,
                    has_buffer: false,
                    capacity: 0,
                }),
            ),
            *final(capabilities) == old(driver).capabilities,
            r is Ok <==> old(driver).capabilities_status == 0,
            r matches Err(s) ==> s.code == old(driver).capabilities_status,
    {
        let addr = self.fp.entry_point(IDX_GET_PHYSICAL_DEVICE_VIDEO_CAPABILITIES);
        let (status, value) = driver.drv_capabilities(addr, pdevice, video_profile);
        *capabilities = value;
        if status == 0 {
            Ok(())
        } else {
            Err(Status { code: status })
        }
    }

    /// First phase of the format enumeration: asks the driver, with no
    /// buffer, how many format entries exist for `video_format_info` on
    /// `pdevice`, and returns that count.  The status of this probing call
    /// is not inspected.
    pub fn get_physical_device_video_format_properties_len(
        &self,
        driver: &mut StubDriver,
        pdevice: u64,
        video_format_info: u64,
    ) -> (n: usize)
        requires
            self.wf(),
            old(driver).wf(),
            self.fp@[IDX_GET_PHYSICAL_DEVICE_VIDEO_FORMAT_PROPERTIES as int] != 0,
        ensures
            logs_call(
                *old(driver),
                *final(driver),
                (CallRecord {
                    addr: self.fp@[IDX_GET_PHYSICAL_DEVICE_VIDEO_FORMAT_PROPERTIES as int],
                    context: pdevice,
                    arg: video_format_info,
                    has_buffer: false,
                    capacity: 0,
                }),
            ),
            n == old(driver).formats@.len(),
    {
        let addr = self.fp.entry_point(IDX_GET_PHYSICAL_DEVICE_VIDEO_FORMAT_PROPERTIES);
        let (_status, count, _entries) = driver.drv_formats(
            addr,
            pdevice,
            video_format_info,
            false,
            0,
        );
        count as usize
    }

    /// Second phase of the format enumeration: hands the driver a buffer of
    /// length `count` and returns what it filled.  If the driver reports a
    /// written count other than `count`, the call fails with
    /// [`QueryError::CountMismatch`] before any status is interpreted;
    /// otherwise a non-zero status is surfaced verbatim, and on success the
    /// returned entries are the driver's, in driver order, truncated to
    /// `count` of them.
    pub fn get_physical_device_video_format_properties(
        &self,
        driver: &mut StubDriver,
        pdevice: u64,
        video_format_info: u64,
        count: u32,
    ) -> (r: Result<Vec<u64>, QueryError>)
        requires
            self.wf(),
            old(driver).wf(),
            self.fp@[IDX_GET_PHYSICAL_DEVICE_VIDEO_FORMAT_PROPERTIES as int] != 0,
        ensures
            logs_call(
                *old(driver),
                *final(driver),
                (CallRecord {
                    addr: self.fp@[IDX_GET_PHYSICAL_DEVICE_VIDEO_FORMAT_PROPERTIES as int],
                    context: pdevice,
                    arg: video_format_info,
                    has_buffer: true,
                    capacity: count,
                }),
            ),
            ({
                let written = reported_count(
                    old(driver).force_written,
                    old(driver).formats@.len(),
                    count,
                );
                &&& r is Ok <==> written == count && old(driver).formats_status == 0
                &&& written != count ==> (r matches Err(QueryError::CountMismatch {
                    requested,
                    written: got,
                }) && requested == count && got == written)
                &&& written == count && old(driver).formats_status != 0 ==> r == Err::<
                    Vec<u64>,
                    QueryError,
                >(QueryError::Driver((Status { code: old(driver).formats_status })))
                &&& written == count && old(driver).formats_status == 0 ==> (r matches Ok(v)
                    && v@ == old(driver).formats@.take(
                    filled_count(old(driver).formats@.len(), count),
                ))
            }),
    {
        let addr = self.fp.entry_point(IDX_GET_PHYSICAL_DEVICE_VIDEO_FORMAT_PROPERTIES);
        let (status, written, entries) = driver.drv_formats(
            addr,
            pdevice,
            video_format_info,
            true,
            count,
        );
        if written != count {
            Err(QueryError::CountMismatch { requested: count, written })
        } else if status != 0 {
            Err(QueryError::Driver(Status { code: status }))
        } else {
            Ok(entries)
        }
    }

    /// The whole two-phase format enumeration behind one call: queries the
    /// count with no buffer, then queries again into a buffer of exactly
    /// that length, so the driver is invoked exactly twice.  Against an
    /// honest driver the result is every format entry, in driver order; a
    /// driver that reports a different written count in the second phase
    /// makes the call fail with [`QueryError::CountMismatch`].
    pub fn query_formats(
        &self,
        driver: &mut StubDriver,
        pdevice: u64,
        video_format_info: u64,
    ) -> (r: Result<Vec<u64>, QueryError>)
        requires
            self.wf(),
            old(driver).wf(),
            self.fp@[IDX_GET_PHYSICAL_DEVICE_VIDEO_FORMAT_PROPERTIES as int] != 0,
        ensures
            same_config(*old(driver), *final(driver)),
            final(driver).resolve_log@ == old(driver).resolve_log@,
            ({
                let n = old(driver).formats@.len();
                let written = reported_count(old(driver).force_written, n, n as u32);
                &&& final(driver).call_log@ == old(driver).call_log@.push(
                    (CallRecord {
                        addr: self.fp@[IDX_GET_PHYSICAL_DEVICE_VIDEO_FORMAT_PROPERTIES as int],
                        context: pdevice,
                        arg: video_format_info,
                        has_buffer: false,
                        capacity: 0,
                    }),
                ).push(
                    (CallRecord {
                        addr: self.fp@[IDX_GET_PHYSICAL_DEVICE_VIDEO_FORMAT_PROPERTIES as int],
                        context: pdevice,
                        arg: video_format_info,
                        has_buffer: true,
                        capacity: n as u32,
                    }),
                )
                &&& r is Ok <==> written == n && old(driver).formats_status == 0
                &&& written != n ==> (r matches Err(QueryError::CountMismatch {
                    requested,
                    written: got,
                }) && requested == n && got == written)
                &&& written == n && old(driver).formats_status != 0 ==> r == Err::<
                    Vec<u64>,
                    QueryError,
                >(QueryError::Driver((Status { code: old(driver).formats_status })))
                &&& r matches Ok(v) ==> v@ == old(driver).formats@
            }),
    {
        let n = self.get_physical_device_video_format_properties_len(
            driver,
            pdevice,
            video_format_info,
        );
        let count = n as u32;
        let r = self.get_physical_device_video_format_properties(
            driver,
            pdevice,
            video_format_info,
            count,
        );
        proof {
            assert(old(driver).formats@.take(old(driver).formats@.len() as int) =~= old(
                driver,
            ).formats@);
        }
        r
    }

    /// Forwards session creation for `create_info` on the owning device.
    /// Success, exactly on the driver's success status, yields the created,
    /// non-null session identifier; any other status is surfaced verbatim
    /// and yields no identifier, and nothing else — no destroy, no cleanup —
    /// is forwarded on the caller's behalf.  The allocator override is
    /// accepted for parity with the native signature; the stub driver has no
    /// allocator to override.
    pub fn create_video_session(
        &self,
        driver: &mut StubDriver,
        create_info: u64,
        allocation_callbacks: Option<u64>,
    ) -> (r: Result<u64, Status>)
        requires
            self.wf(),
            old(driver).wf(),
            self.fp@[IDX_CREATE_VIDEO_SESSION as int] != 0,
        ensures
            logs_call(
                *old(driver),
                *final(driver),
                (CallRecord {
                    addr: self.fp@[IDX_CREATE_VIDEO_SESSION as int],
                    context: self.handle,
                    arg: create_info,
                    has_buffer: false,
                    capacity: 0,
                }),
            ),
            r is Ok <==> old(driver).create_session_status == 0,
            r matches Ok(session) ==> session == old(driver).session_handle && session != 0,
            r matches Err(s) ==> s.code == old(driver).create_session_status,
    {
        let _ = allocation_callbacks;
        let addr = self.fp.entry_point(IDX_CREATE_VIDEO_SESSION);
        let (status, session) = driver.drv_create_session(addr, self.handle, create_info);
        if status == 0 {
            Ok(session)
        } else {
            Err(Status { code: status })
        }
    }

    /// Forwards the destruction of `video_session` on the owning device.
    /// The call is forwarded exactly once and returns nothing; whether the
    /// identifier is live is the caller's obligation, as at the native layer.
    pub fn destroy_video_session(
        &self,
        driver: &mut StubDriver,
        video_session: u64,
        allocation_callbacks: Option<u64>,
    )
        requires
            self.wf(),
            self.fp@[IDX_DESTROY_VIDEO_SESSION as int] != 0,
        ensures
            logs_call(
                *old(driver),
                *final(driver),
                (CallRecord {
                    addr: self.fp@[IDX_DESTROY_VIDEO_SESSION as int],
                    context: self.handle,
                    arg: video_session,
                    has_buffer: false,
                    capacity: 0,
                }),
            ),
    {
        let _ = allocation_callbacks;
        let addr = self.fp.entry_point(IDX_DESTROY_VIDEO_SESSION);
        driver.drv_command(addr, self.handle, video_session);
    }

    /// Hands the driver a buffer of length `count` for the memory
    /// requirements of `video_session` and returns what it filled, with the
    /// same mismatch-before-status discipline as the format enumeration.
    pub fn get_video_session_memory_requirements(
        &self,
        driver: &mut StubDriver,
        video_session: u64,
        count: u32,
    ) -> (r: Result<Vec<u64>, QueryError>)
        requires
            self.wf(),
            old(driver).wf(),
            self.fp@[IDX_GET_VIDEO_SESSION_MEMORY_REQUIREMENTS as int] != 0,
        ensures
            logs_call(
                *old(driver),
                *final(driver),
                (CallRecord {
                    addr: self.fp@[IDX_GET_VIDEO_SESSION_MEMORY_REQUIREMENTS as int],
                    context: self.handle,
                    arg: video_session,
                    has_buffer: true,
                    capacity: count,
                }),
            ),
            ({
                let written = reported_count(
                    old(driver).force_written,
                    old(driver).memory_requirements@.len(),
                    count,
                );
                &&& r is Ok <==> written == count && old(driver).memory_status == 0
                &&& written != count ==> (r matches Err(QueryError::CountMismatch {
                    requested,
                    written: got,
                }) && requested == count && got == written)
                &&& written == count && old(driver).memory_status != 0 ==> r == Err::<
                    Vec<u64>,
                    QueryError,
                >(QueryError::Driver((Status { code: old(driver).memory_status })))
                &&& written == count && old(driver).memory_status == 0 ==> (r matches Ok(v)
                    && v@ == old(driver).memory_requirements@.take(
                    filled_count(old(driver).memory_requirements@.len(), count),
                ))
            }),
    {
        let addr = self.fp.entry_point(IDX_GET_VIDEO_SESSION_MEMORY_REQUIREMENTS);
        let (status, written, entries) = driver.drv_memory(addr, self.handle, video_session, count);
        if written != count {
            Err(QueryError::CountMismatch { requested: count, written })
        } else if status != 0 {
            Err(QueryError::Driver(Status { code: status }))
        } else {
            Ok(entries)
        }
    }

    /// Forwards the bind of the given memory ranges to `video_session` and
    /// surfaces the driver's status unmodified.
    pub fn bind_video_session_memory(
        &self,
        driver: &mut StubDriver,
        video_session: u64,
        bind_session_memory_infos: &Vec<u64>,
    ) -> (r: Result<(), Status>)
        requires
            self.wf(),
            self.fp@[IDX_BIND_VIDEO_SESSION_MEMORY as int] != 0,
            bind_session_memory_infos@.len() <= u32::MAX,
        ensures
            logs_call(
                *old(driver),
                *final(driver),
                (CallRecord {
                    addr: self.fp@[IDX_BIND_VIDEO_SESSION_MEMORY as int],
                    context: self.handle,
                    arg: video_session,
                    has_buffer: true,
                    capacity: bind_session_memory_infos@.len() as u32,
                }),
            ),
            r is Ok <==> old(driver).bind_status == 0,
            r matches Err(s) ==> s.code == old(driver).bind_status,
    {
        let addr = self.fp.entry_point(IDX_BIND_VIDEO_SESSION_MEMORY);
        let status = driver.drv_bind_memory(
            addr,
            self.handle,
            video_session,
            bind_session_memory_infos,
        );
        if status == 0 {
            Ok(())
        } else {
            Err(Status { code: status })
        }
    }

    /// Forwards session-parameters creation for `create_info` on the owning
    /// device, with the same success-and-identifier contract as
    /// [`Self::create_video_session`].
    pub fn create_video_session_parameters(
        &self,
        driver: &mut StubDriver,
        create_info: u64,
        allocation_callbacks: Option<u64>,
    ) -> (r: Result<u64, Status>)
        requires
            self.wf(),
            old(driver).wf(),
            self.fp@[IDX_CREATE_VIDEO_SESSION_PARAMETERS as int] != 0,
        ensures
            logs_call(
                *old(driver),
                *final(driver),
                (CallRecord {
                    addr: self.fp@[IDX_CREATE_VIDEO_SESSION_PARAMETERS as int],
                    context: self.handle,
                    arg: create_info,
                    has_buffer: false,
                    capacity: 0,
                }),
            ),
            r is Ok <==> old(driver).create_parameters_status == 0,
            r matches Ok(parameters) ==> parameters == old(driver).parameters_handle
                && parameters != 0,
            r matches Err(s) ==> s.code == old(driver).create_parameters_status,
    {
        let _ = allocation_callbacks;
        let addr = self.fp.entry_point(IDX_CREATE_VIDEO_SESSION_PARAMETERS);
        let (status, parameters) = driver.drv_create_parameters(addr, self.handle, create_info);
        if status == 0 {
            Ok(parameters)
        } else {
            Err(Status { code: status })
        }
    }

    /// Forwards a parameters update and surfaces the driver's status
    /// unmodified.
    pub fn update_video_session_parameters(
        &self,
        driver: &mut StubDriver,
        video_session_parameters: u64,
        update_info: u64,
    ) -> (r: Result<(), Status>)
        requires
            self.wf(),
            self.fp@[IDX_UPDATE_VIDEO_SESSION_PARAMETERS as int] != 0,
        ensures
            logs_call(
                *old(driver),
                *final(driver),
                (CallRecord {
                    addr: self.fp@[IDX_UPDATE_VIDEO_SESSION_PARAMETERS as int],
                    context: self.handle,
                    arg: video_session_parameters,
                    has_buffer: false,
                    capacity: 0,
                }),
            ),
            r is Ok <==> old(driver).update_status == 0,
            r matches Err(s) ==> s.code == old(driver).update_status,
    {
        let addr = self.fp.entry_point(IDX_UPDATE_VIDEO_SESSION_PARAMETERS);
        let status = driver.drv_update_parameters(
            addr,
            self.handle,
            video_session_parameters,
            update_info,
        );
        if status == 0 {
            Ok(())
        } else {
            Err(Status { code: status })
        }
    }

    /// Forwards the destruction of `video_session_parameters`, exactly once,
    /// returning nothing.
    pub fn destroy_video_session_parameters(
        &self,
        driver: &mut StubDriver,
        video_session_parameters: u64,
        allocation_callbacks: Option<u64>,
    )
        requires
            self.wf(),
            self.fp@[IDX_DESTROY_VIDEO_SESSION_PARAMETERS as int] != 0,
        ensures
            logs_call(
                *old(driver),
                *final(driver),
                (CallRecord {
                    addr: self.fp@[IDX_DESTROY_VIDEO_SESSION_PARAMETERS as int],
                    context: self.handle,
                    arg: video_session_parameters,
                    has_buffer: false,
                    capacity: 0,
                }),
            ),
    {
        let _ = allocation_callbacks;
        let addr = self.fp.entry_point(IDX_DESTROY_VIDEO_SESSION_PARAMETERS);
        driver.drv_command(addr, self.handle, video_session_parameters);
    }

    /// Records the begin of a video coding scope on `command_buffer`.  Void
    /// at the native layer; that the buffer is in a recording state is the
    /// caller's obligation, as at the native layer.
    pub fn cmd_begin_video_coding(
        &self,
        driver: &mut StubDriver,
        command_buffer: u64,
        begin_info: u64,
    )
        requires
            self.wf(),
            self.fp@[IDX_CMD_BEGIN_VIDEO_CODING as int] != 0,
        ensures
            logs_call(
                *old(driver),
                *final(driver),
                (CallRecord {
                    addr: self.fp@[IDX_CMD_BEGIN_VIDEO_CODING as int],
                    context: command_buffer,
                    arg: begin_info,
                    has_buffer: false,
                    capacity: 0,
                }),
            ),
    {
        let addr = self.fp.entry_point(IDX_CMD_BEGIN_VIDEO_CODING);
        driver.drv_command(addr, command_buffer, begin_info);
    }

    /// Records the end of a video coding scope on `command_buffer`.
    pub fn cmd_end_video_coding(
        &self,
        driver: &mut StubDriver,
        command_buffer: u64,
        end_coding_info: u64,
    )
        requires
            self.wf(),
            self.fp@[IDX_CMD_END_VIDEO_CODING as int] != 0,
        ensures
            logs_call(
                *old(driver),
                *final(driver),
                (CallRecord {
                    addr: self.fp@[IDX_CMD_END_VIDEO_CODING as int],
                    context: command_buffer,
                    arg: end_coding_info,
                    has_buffer: false,
                    capacity: 0,
                }),
            ),
    {
        let addr = self.fp.entry_point(IDX_CMD_END_VIDEO_CODING);
        driver.drv_command(addr, command_buffer, end_coding_info);
    }

    /// Records a coding control operation on `command_buffer`.
    pub fn cmd_control_video_coding(
        &self,
        driver: &mut StubDriver,
        command_buffer: u64,
        coding_control_info: u64,
    )
        requires
            self.wf(),
            self.fp@[IDX_CMD_CONTROL_VIDEO_CODING as int] != 0,
        ensures
            logs_call(
                *old(driver),
                *final(driver),
                (CallRecord {
                    addr: self.fp@[IDX_CMD_CONTROL_VIDEO_CODING as int],
                    context: command_buffer,
                    arg: coding_control_info,
                    has_buffer: false,
                    capacity: 0,
                }),
            ),
    {
        let addr = self.fp.entry_point(IDX_CMD_CONTROL_VIDEO_CODING);
        driver.drv_command(addr, command_buffer, coding_control_info);
    }

    /// The canonical name of this extension family.
    pub fn name() -> (r: &'static str)
        ensures
            r@ == "VK_KHR_video_queue"@,
    {
        "VK_KHR_video_queue"
    }

    /// The proxy's function table.
    pub fn fp(&self) -> (r: &FunctionTable)
        ensures
            *r == self.fp,
    {
        &self.fp
    }

    /// The owning device handle this proxy retains.
    pub fn device(&self) -> (h: u64)
        ensures
            h == self.handle,
    {
        self.handle
    }
}

} // verus!
