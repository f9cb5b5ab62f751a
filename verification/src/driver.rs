use vstd::prelude::*;

verus! {

/// One forwarded call as the driver saw it.
///
/// `addr` is the entry-point address that was invoked, `context` the handle
/// the call was directed at (a physical device, device, or command buffer),
/// and `arg` the primary payload forwarded with it.  For calls that hand the
/// driver a caller buffer, `has_buffer` is set and `capacity` is the buffer
/// length supplied; both are clear otherwise.
#[derive(Clone, Copy, PartialEq, Eq, Structural, Debug)]
pub struct CallRecord {
    pub addr: u64,
    pub context: u64,
    pub arg: u64,
    pub has_buffer: bool,
    pub capacity: u32,
}

/// The address an export list resolves `sym` to: the address paired with the
/// first occurrence of `sym`, or zero when the symbol is absent.
pub open spec fn lookup_addr(exports: Seq<(u64, u64)>, sym: u64) -> u64
    decreases exports.len(),
{
    if exports.len() == 0 {
        0
    } else if exports[0].0 == sym {
        exports[0].1
    } else {
        lookup_addr(exports.drop_first(), sym)
    }
}

/// How many elements a driver writes into a buffer of length `capacity` when
/// `total` elements exist: all of them, truncated to the buffer.
pub open spec fn filled_count(total: nat, capacity: u32) -> int {
    if capacity <= total {
        capacity as int
    } else {
        total as int
    }
}

/// The written count a stub reports for a buffer of length `capacity`: the
/// honest count, unless a forced value is configured for fault injection.
pub open spec fn reported_count(force: Option<u32>, total: nat, capacity: u32) -> int {
    match force {
        Some(w) => w as int,
        None => filled_count(total, capacity),
    }
}

/// A stand-in for the native driver and its loader.
///
/// It resolves symbols out of a fixed export list, answers forwarded calls
/// from fixed configuration fields, and keeps two append-only logs: the
/// symbols it was asked to resolve and the calls that reached it.  The logs
/// are what the proxy contracts are stated against.
pub struct StubDriver {
    /// Exported entry points, as pairs of symbol identifier and address.
    pub exports: Vec<(u64, u64)>,
    /// The capability format entries the driver enumerates.
    pub formats: Vec<u64>,
    /// The memory requirement entries the driver enumerates.
    pub memory_requirements: Vec<u64>,
    /// The capabilities value the driver reports.
    pub capabilities: u64,
    /// The identifier handed out for a created video session.
    pub session_handle: u64,
    /// The identifier handed out for created session parameters.
    pub parameters_handle: u64,
    /// Status code returned by the capabilities query.
    pub capabilities_status: i64,
    /// Status code returned by the format enumeration.
    pub formats_status: i64,
    /// Status code returned by the memory-requirements enumeration.
    pub memory_status: i64,
    /// Status code returned by the memory bind.
    pub bind_status: i64,
    /// Status code returned by session creation.
    pub create_session_status: i64,
    /// Status code returned by session-parameters creation.
    pub create_parameters_status: i64,
    /// Status code returned by the parameters update.
    pub update_status: i64,
    /// When set, the written count reported by buffer-filling calls,
    /// in place of the honest one.  A fault-injection knob.
    pub force_written: Option<u32>,
    /// Symbols resolved so far, in order.
    pub resolve_log: Vec<u64>,
    /// Calls forwarded so far, in order.
    pub call_log: Vec<CallRecord>,
}

/// The driver's fixed behaviour is the same in `pre` and `post`: every field
/// except the two logs is unchanged.
pub open spec fn same_config(pre: StubDriver, post: StubDriver) -> bool {
    &&& post.exports@ == pre.exports@
    &&& post.formats@ == pre.formats@
    &&& post.memory_requirements@ == pre.memory_requirements@
    &&& post.capabilities == pre.capabilities
    &&& post.session_handle == pre.session_handle
    &&& post.parameters_handle == pre.parameters_handle
    &&& post.capabilities_status == pre.capabilities_status
    &&& post.formats_status == pre.formats_status
    &&& post.memory_status == pre.memory_status
    &&& post.bind_status == pre.bind_status
    &&& post.create_session_status == pre.create_session_status
    &&& post.create_parameters_status == pre.create_parameters_status
    &&& post.update_status == pre.update_status
    &&& post.force_written == pre.force_written
}

/// Between `pre` and `post` the driver behaved as configured, resolved
/// nothing, and took exactly one call, `rec`.
pub open spec fn logs_call(pre: StubDriver, post: StubDriver, rec: CallRecord) -> bool {
    &&& same_config(pre, post)
    &&& post.resolve_log@ == pre.resolve_log@
    &&& post.call_log@ == pre.call_log@.push(rec)
}

/// `lookup_addr` is unchanged by dropping a prefix that does not contain the
/// symbol.
proof fn lemma_lookup_addr_skip(exports: Seq<(u64, u64)>, sym: u64, i: int)
    requires
        0 <= i <= exports.len(),
        forall|k: int| 0 <= k < i ==> (#[trigger] exports[k]).0 != sym,
    ensures
        lookup_addr(exports, sym) == lookup_addr(exports.skip(i), sym),
    decreases i,
{
    if i == 0 {
        assert(exports.skip(0) =~= exports);
    } else {
        assert(exports[0].0 != sym);
        lemma_lookup_addr_skip(exports.drop_first(), sym, i - 1);
        assert(exports.drop_first().skip(i - 1) =~= exports.skip(i));
    }
}

/// The first `n` elements of `v`, copied out.
fn prefix_of(v: &Vec<u64>, n: usize) -> (r: Vec<u64>)
    requires
        n <= v@.len(),
    ensures
        r@ == v@.take(n as int),
{
    let mut r: Vec<u64> = Vec::new();
    let mut j: usize = 0;
    #[verifier::loop_isolation(false)]
    while j < n
        invariant
            j <= n,
            r@ == v@.take(j as int),
        decreases n - j,
    {
        r.push(v[j]);
        proof {
            assert(v@.take(j as int).push(v@[j as int]) =~= v@.take(j + 1 as int));
        }
        j = j + 1;
    }
    r
}

impl StubDriver {
    /// A well-configured driver: created resources get non-null identifiers,
    /// and the enumerable entries fit the native count width.
    pub open spec fn wf(self) -> bool {
        &&& self.session_handle != 0
        &&& self.parameters_handle != 0
        &&& self.formats@.len() <= u32::MAX
        &&& self.memory_requirements@.len() <= u32::MAX
    }

    /// The address this driver's loader resolves `sym` to, or zero.
    pub open spec fn addr_of(self, sym: u64) -> u64 {
        lookup_addr(self.exports@, sym)
    }

    /// A driver with the given exports and reported data, success statuses
    /// everywhere, no fault injection, and empty logs.
    pub fn new(
        exports: Vec<(u64, u64)>,
        formats: Vec<u64>,
        memory_requirements: Vec<u64>,
        capabilities: u64,
        session_handle: u64,
        parameters_handle: u64,
    ) -> (d: StubDriver)
        ensures
            d.exports@ == exports@,
            d.formats@ == formats@,
            d.memory_requirements@ == memory_requirements@,
            d.capabilities == capabilities,
            d.session_handle == session_handle,
            d.parameters_handle == parameters_handle,
            d.capabilities_status == 0,
            d.formats_status == 0,
            d.memory_status == 0,
            d.bind_status == 0,
            d.create_session_status == 0,
            d.create_parameters_status == 0,
            d.update_status == 0,
            d.force_written is None,
            d.resolve_log@ == Seq::<u64>::empty(),
            d.call_log@ == Seq::<CallRecord>::empty(),
            session_handle != 0 && parameters_handle != 0 && formats@.len() <= u32::MAX
                && memory_requirements@.len() <= u32::MAX ==> d.wf(),
    {
        StubDriver {
            exports,
            formats,
            memory_requirements,
            capabilities,
            session_handle,
            parameters_handle,
            capabilities_status: 0,
            formats_status: 0,
            memory_status: 0,
            bind_status: 0,
            create_session_status: 0,
            create_parameters_status: 0,
            update_status: 0,
            force_written: None,
            resolve_log: Vec::new(),
            call_log: Vec::new(),
        }
    }

    /// The loader: looks `sym` up in the export list, appends it to the
    /// resolution log, and returns its address, or zero when it is absent.
    /// The instance handle is accepted for parity with the native resolver's
    /// signature; this stub exports one table whichever instance asks.
    pub fn get_instance_proc_addr(&mut self, instance: u64, sym: u64) -> (addr: u64)
        ensures
            same_config(*old(self), *final(self)),
            final(self).call_log@ == old(self).call_log@,
            final(self).resolve_log@ == old(self).resolve_log@.push(sym),
            addr == old(self).addr_of(sym),
    {
        let _ = instance;
        self.resolve_log.push(sym);
        let mut i: usize = 0;
        #[verifier::loop_isolation(false)]
        while i < self.exports.len()
            invariant
                i <= self.exports@.len(),
                forall|k: int| 0 <= k < i ==> (#[trigger] self.exports@[k]).0 != sym,
            decreases self.exports@.len() - i,
        {
            if self.exports[i].0 == sym {
                proof {
                    lemma_lookup_addr_skip(self.exports@, sym, i as int);
                    assert(self.exports@.skip(i as int)[0] == self.exports@[i as int]);
                }
                return self.exports[i].1;
            }
            i = i + 1;
        }
        proof {
            lemma_lookup_addr_skip(self.exports@, sym, i as int);
            assert(self.exports@.skip(i as int) =~= Seq::<(u64, u64)>::empty());
        }
        0
    }

    /// Capabilities query: reports the configured value with the configured
    /// status.
    pub(crate) fn drv_capabilities(&mut self, addr: u64, pdevice: u64, profile: u64) -> (r: (
        i64,
        u64,
    ))
        ensures
            logs_call(
                *old(self),
                *final(self),
                (CallRecord {
                    addr,
                    context: pdevice,
                    arg: profile,
                    has_buffer: false,
                    capacity: 0,
                }),
            ),
            r.0 == old(self).capabilities_status,
            r.1 == old(self).capabilities,
    {
        let status = self.capabilities_status;
        let value = self.capabilities;
        self.call_log.push(
            CallRecord { addr, context: pdevice, arg: profile, has_buffer: false, capacity: 0 },
        );
        (status, value)
    }

    /// Format enumeration.  Without a buffer it reports the true entry count;
    /// with one it fills the buffer up to its length and reports the written
    /// count, honest unless one is forced.
    pub(crate) fn drv_formats(
        &mut self,
        addr: u64,
        pdevice: u64,
        format_info: u64,
        has_buffer: bool,
        capacity: u32,
    ) -> (r: (i64, u32, Vec<u64>))
        requires
            old(self).wf(),
        ensures
            logs_call(
                *old(self),
                *final(self),
                (CallRecord { addr, context: pdevice, arg: format_info, has_buffer, capacity }),
            ),
            r.0 == old(self).formats_status,
            !has_buffer ==> r.1 == old(self).formats@.len() && r.2@ == Seq::<u64>::empty(),
            has_buffer ==> r.1 == reported_count(
                old(self).force_written,
                old(self).formats@.len(),
                capacity,
            ),
            has_buffer ==> r.2@ == old(self).formats@.take(
                filled_count(old(self).formats@.len(), capacity),
            ),
    {
        let status = self.formats_status;
        let reply = if !has_buffer {
            (status, self.formats.len() as u32, Vec::new())
        } else {
            let filled: usize = if (capacity as usize) <= self.formats.len() {
                capacity as usize
            } else {
                self.formats.len()
            };
            let entries = prefix_of(&self.formats, filled);
            let written: u32 = match self.force_written {
                Some(w) => w,
                None => filled as u32,
            };
            (status, written, entries)
        };
        self.call_log.push(
            CallRecord { addr, context: pdevice, arg: format_info, has_buffer, capacity },
        );
        reply
    }

    /// Memory-requirements enumeration into a buffer of length `capacity`:
    /// fills up to that many entries and reports the written count, honest
    /// unless one is forced.
    pub(crate) fn drv_memory(&mut self, addr: u64, device: u64, session: u64, capacity: u32) -> (r:
        (i64, u32, Vec<u64>))
        requires
            old(self).wf(),
        ensures
            logs_call(
                *old(self),
                *final(self),
                (CallRecord {
                    addr,
                    context: device,
                    arg: session,
                    has_buffer: true,
                    capacity,
                }),
            ),
            r.0 == old(self).memory_status,
            r.1 == reported_count(
                old(self).force_written,
                old(self).memory_requirements@.len(),
                capacity,
            ),
            r.2@ == old(self).memory_requirements@.take(
                filled_count(old(self).memory_requirements@.len(), capacity),
            ),
    {
        let status = self.memory_status;
        let filled: usize = if (capacity as usize) <= self.memory_requirements.len() {
            capacity as usize
        } else {
            self.memory_requirements.len()
        };
        let entries = prefix_of(&self.memory_requirements, filled);
        let written: u32 = match self.force_written {
            Some(w) => w,
            None => filled as u32,
        };
        self.call_log.push(
            CallRecord { addr, context: device, arg: session, has_buffer: true, capacity },
        );
        (status, written, entries)
    }

    /// Session creation: on the configured success status hands out the
    /// configured session identifier, otherwise a null one.
    pub(crate) fn drv_create_session(&mut self, addr: u64, device: u64, create_info: u64) -> (r: (
        i64,
        u64,
    ))
        ensures
            logs_call(
                *old(self),
                *final(self),
                (CallRecord {
                    addr,
                    context: device,
                    arg: create_info,
                    has_buffer: false,
                    capacity: 0,
                }),
            ),
            r.0 == old(self).create_session_status,
            old(self).create_session_status == 0 ==> r.1 == old(self).session_handle,
            old(self).create_session_status != 0 ==> r.1 == 0,
    {
        let status = self.create_session_status;
        let handle = if status == 0 {
            self.session_handle
        } else {
            0
        };
        self.call_log.push(
            CallRecord { addr, context: device, arg: create_info, has_buffer: false, capacity: 0 },
        );
        (status, handle)
    }

    /// Session-parameters creation, as `drv_create_session` but for the
    /// parameters identifier and its status.
    pub(crate) fn drv_create_parameters(&mut self, addr: u64, device: u64, create_info: u64) -> (r:
        (i64, u64))
        ensures
            logs_call(
                *old(self),
                *final(self),
                (CallRecord {
                    addr,
                    context: device,
                    arg: create_info,
                    has_buffer: false,
                    capacity: 0,
                }),
            ),
            r.0 == old(self).create_parameters_status,
            old(self).create_parameters_status == 0 ==> r.1 == old(self).parameters_handle,
            old(self).create_parameters_status != 0 ==> r.1 == 0,
    {
        let status = self.create_parameters_status;
        let handle = if status == 0 {
            self.parameters_handle
        } else {
            0
        };
        self.call_log.push(
            CallRecord { addr, context: device, arg: create_info, has_buffer: false, capacity: 0 },
        );
        (status, handle)
    }

    /// Parameters update: returns the configured status.  The update payload
    /// is accepted and dropped: the stub keeps no parameter state, and the
    /// call record carries the targeted parameters object.
    pub(crate) fn drv_update_parameters(
        &mut self,
        addr: u64,
        device: u64,
        parameters: u64,
        update_info: u64,
    ) -> (r: i64)
        ensures
            logs_call(
                *old(self),
                *final(self),
                (CallRecord {
                    addr,
                    context: device,
                    arg: parameters,
                    has_buffer: false,
                    capacity: 0,
                }),
            ),
            r == old(self).update_status,
    {
        let _ = update_info;
        let status = self.update_status;
        self.call_log.push(
            CallRecord { addr, context: device, arg: parameters, has_buffer: false, capacity: 0 },
        );
        status
    }

    /// Memory bind: takes the bind array and returns the configured status.
    pub(crate) fn drv_bind_memory(
        &mut self,
        addr: u64,
        device: u64,
        session: u64,
        bind_infos: &Vec<u64>,
    ) -> (r: i64)
        requires
            bind_infos@.len() <= u32::MAX,
        ensures
            logs_call(
                *old(self),
                *final(self),
                (CallRecord {
                    addr,
                    context: device,
                    arg: session,
                    has_buffer: true,
                    capacity: bind_infos@.len() as u32,
                }),
            ),
            r == old(self).bind_status,
    {
        let status = self.bind_status;
        let capacity = bind_infos.len() as u32;
        self.call_log.push(
            CallRecord { addr, context: device, arg: session, has_buffer: true, capacity },
        );
        status
    }

    /// A void command or destroy call: the driver only takes note of it.
    pub(crate) fn drv_command(&mut self, addr: u64, context: u64, arg: u64)
        ensures
            logs_call(
                *old(self),
                *final(self),
                (CallRecord { addr, context, arg, has_buffer: false, capacity: 0 }),
            ),
    {
        self.call_log.push(CallRecord { addr, context, arg, has_buffer: false, capacity: 0 });
    }
}

} // verus!
