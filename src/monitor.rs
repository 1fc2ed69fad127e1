use vstd::prelude::*;

verus! {

/// What can go wrong while looking monitors up or capturing one.
#[derive(PartialEq, Eq, Structural, Clone, Copy, Debug)]
pub enum MonitorErrors {
    /// No monitor stands at the requested position of the enumerated list.
    NotFound,
    /// The system's monitor enumeration failed; carries its error code.
    EnumerationFailed(i32),
    /// No capture source could be made for the monitor; carries the
    /// platform's error code.
    ConversionFailed(i32),
}

/// The list that the enumeration callback holds after it was handed `monitor`.
pub open spec fn recorded(monitors: Seq<isize>, monitor: isize) -> Seq<isize> {
    monitors.push(monitor)
}

/// The list that the enumeration callback holds after it was handed each
/// handle of `reported` in turn, starting from `monitors`.
pub open spec fn after_callbacks(monitors: Seq<isize>, reported: Seq<isize>) -> Seq<isize>
    decreases reported.len(),
{
    if reported.len() == 0 {
        monitors
    } else {
        after_callbacks(recorded(monitors, reported[0]), reported.drop_first())
    }
}

/// What an enumeration returns: the handles that the callback gathered when
/// the system call succeeded, the system's error otherwise.
pub open spec fn enumeration_outcome(status: Result<(), i32>, gathered: Seq<isize>) -> Result<
    Seq<isize>,
    MonitorErrors,
> {
    match status {
        Ok(()) => Ok(gathered),
        Err(code) => Err(MonitorErrors::EnumerationFailed(code)),
    }
}

/// The handle at position `index` of an enumerated list, or `NotFound` where
/// the list has no such position.
pub open spec fn monitor_at(monitors: Seq<isize>, index: int) -> Result<isize, MonitorErrors> {
    if 0 <= index < monitors.len() {
        Ok(monitors[index])
    } else {
        Err(MonitorErrors::NotFound)
    }
}

/// A display monitor, identified by the raw value of the handle that the
/// operating system gave it (an `HMONITOR`).
///
/// The handle is not owned: nothing is released when a `Monitor` goes away,
/// and a handle that the system no longer knows is carried along unchecked.
#[derive(PartialEq, Eq, Structural, Clone, Copy, Debug)]
pub struct Monitor {
    monitor: isize,
}

impl View for Monitor {
    type V = isize;

    /// The raw handle value.
    closed spec fn view(&self) -> isize {
        self.monitor
    }
}

impl Monitor {
    /// Wraps a raw monitor handle, without checking it.
    pub fn from_raw_hmonitor(monitor: isize) -> (r: Self)
        ensures
            r@ == monitor,
    {
        Monitor { monitor }
    }

    /// The raw monitor handle.
    pub fn as_raw_hmonitor(&self) -> (r: isize)
        ensures
            r == self@,
    {
        self.monitor
    }

    /// The step of an enumeration that the system takes once for each monitor:
    /// appends the monitor's handle to the shared list and asks for the
    /// enumeration to go on, which it always does.
    pub fn enum_monitors_callback(monitors: &mut Vec<isize>, monitor: isize) -> (r: bool)
        ensures
            final(monitors)@ == recorded(old(monitors)@, monitor),
            r,
    {
        monitors.push(monitor);
        true
    }

    /// Completes an enumeration: `status` is what the system's enumeration
    /// call reported (`Err` with its error code when it failed), `gathered` the
    /// list that the callback filled meanwhile.
    ///
    /// An empty list is a success: no monitor was found.
    pub fn enumerate(status: Result<(), i32>, gathered: Vec<isize>) -> (r: Result<
        Vec<isize>,
        MonitorErrors,
    >)
        ensures
            r is Ok <==> status is Ok,
            r matches Ok(v) ==> enumeration_outcome(status, gathered@) == Ok::<
                Seq<isize>,
                MonitorErrors,
            >(v@),
            r matches Err(e) ==> enumeration_outcome(status, gathered@) == Err::<
                Seq<isize>,
                MonitorErrors,
            >(e),
    {
        match status {
            Ok(()) => Ok(gathered),
            Err(code) => Err(MonitorErrors::EnumerationFailed(code)),
        }
    }

    /// The monitor at position `index` of a list that an enumeration returned;
    /// `NotFound` where the list is too short, an empty list included.
    pub fn from_index(monitors: &Vec<isize>, index: usize) -> (r: Result<Self, MonitorErrors>)
        ensures
            r is Ok <==> index < monitors@.len(),
            r matches Ok(m) ==> monitor_at(monitors@, index as int) == Ok::<isize, MonitorErrors>(
                m@,
            ),
            r matches Err(e) ==> monitor_at(monitors@, index as int) == Err::<isize, MonitorErrors>(
                e,
            ),
    {
        if index < monitors.len() {
            Ok(Monitor::from_raw_hmonitor(monitors[index]))
        } else {
            Err(MonitorErrors::NotFound)
        }
    }

    /// Makes a screen-capture source for this monitor in the platform's two
    /// steps: `factory` looks up the capture-item interop factory, afresh on
    /// each call, and `create` asks it for a capture source bound to a
    /// monitor handle. Each step reports a failure by its error code.
    ///
    /// `create` is handed this monitor's own handle, and only once the
    /// factory was found. Either failure comes back as `ConversionFailed`
    /// with the failing step's code; otherwise the result is the source that
    /// `create` made.
    pub fn to_capture_source<I, S, F, G>(&self, factory: F, create: G) -> (r: Result<
        S,
        MonitorErrors,
    >) where F: FnOnce() -> Result<I, i32>, G: FnOnce(I, isize) -> Result<S, i32>
        requires
            factory.requires(()),
            forall|i: I| create.requires((i, self@)),
        ensures
            r matches Ok(s) ==> exists|i: I|
                factory.ensures((), Ok::<I, i32>(i)) && create.ensures((i, self@), Ok::<S, i32>(s)),
            r matches Err(e) ==> exists|code: i32|
                e == MonitorErrors::ConversionFailed(code) && (factory.ensures(
                    (),
                    Err::<I, i32>(code),
                ) || exists|i: I|
                    factory.ensures((), Ok::<I, i32>(i)) && create.ensures(
                        (i, self@),
                        Err::<S, i32>(code),
                    )),
    {
        let interop = match factory() {
            Ok(interop) => interop,
            Err(code) => {
                return Err(MonitorErrors::ConversionFailed(code));
            },
        };
        match create(interop, self.as_raw_hmonitor()) {
            Ok(source) => Ok(source),
            Err(code) => Err(MonitorErrors::ConversionFailed(code)),
        }
    }
}

/// Handing the enumeration callback the monitors that the system reports,
/// one by one and starting from an empty list, leaves exactly those monitors
/// in the list: as many as were reported, in the order reported, none merged
/// or dropped.
pub proof fn lemma_callbacks_keep_every_monitor(reported: Seq<isize>)
    ensures
        after_callbacks(Seq::empty(), reported) == reported,
        after_callbacks(Seq::empty(), reported).len() == reported.len(),
{
    lemma_after_callbacks_appends(Seq::empty(), reported);
    assert(Seq::<isize>::empty() + reported =~= reported);
}

/// Each callback appends its monitor at the end of the list.
proof fn lemma_after_callbacks_appends(monitors: Seq<isize>, reported: Seq<isize>)
    ensures
        after_callbacks(monitors, reported) == monitors + reported,
    decreases reported.len(),
{
    if reported.len() > 0 {
        lemma_after_callbacks_appends(recorded(monitors, reported[0]), reported.drop_first());
        assert(monitors.push(reported[0]) + reported.drop_first() =~= monitors + reported);
    } else {
        assert(monitors + reported =~= monitors);
    }
}

/// Looking a position up in the list of a successful enumeration gives the
/// monitor at that position of the list whenever the list has it, and
/// `NotFound` otherwise, an empty list included.
pub proof fn lemma_lookup_in_enumeration(gathered: Seq<isize>, index: int)
    requires
        0 <= index,
    ensures
        enumeration_outcome(Ok(()), gathered) == Ok::<Seq<isize>, MonitorErrors>(gathered),
        index < gathered.len() ==> monitor_at(gathered, index) == Ok::<isize, MonitorErrors>(
            gathered[index],
        ),
        index >= gathered.len() ==> monitor_at(gathered, index) == Err::<isize, MonitorErrors>(
            MonitorErrors::NotFound,
        ),
{
}

/// Two monitors with the same raw handle are the same monitor, so wrapping
/// the raw handle of a monitor gives that monitor back.
pub proof fn lemma_raw_round_trip(h: Monitor, k: Monitor)
    requires
        k@ == h@,
    ensures
        k == h,
{
}

} // verus!
