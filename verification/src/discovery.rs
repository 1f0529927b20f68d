//! Device discovery.
//!
//! The vendor enumerates attached devices by index: the shell calls the
//! describe-by-index primitive for index 0, 1, 2, … and hands the status
//! codes and descriptor buffers here.  Enumeration collects descriptors until
//! the first "empty" response and surfaces any other error; a rescan retries
//! the bounded-time rescan primitive for as long as it answers "retry".

use vstd::prelude::*;

use crate::status::{err_of, err_spec, res, res_spec, Error};
use crate::wide::{decode_wide, wide_lossy};

verus! {

/// Immutable snapshot of one discovered device: its serial number as the raw
/// nul-padded wide-character buffer the vendor reported, and the vendor's
/// four readiness flags.
#[derive(Debug, PartialEq)]
pub struct DeviceInfo {
    pub serial_raw: Vec<u32>,
    pub ready: bool,
    pub boost: bool,
    pub superspeed: bool,
    pub active: bool,
}

/// Mathematical snapshot of a [`DeviceInfo`].
pub struct DeviceInfoV {
    pub serial: Seq<u32>,
    pub ready: bool,
    pub boost: bool,
    pub superspeed: bool,
    pub active: bool,
}

impl View for DeviceInfo {
    type V = DeviceInfoV;

    open spec fn view(&self) -> DeviceInfoV {
        DeviceInfoV {
            serial: self.serial_raw@,
            ready: self.ready,
            boost: self.boost,
            superspeed: self.superspeed,
            active: self.active,
        }
    }
}

impl Clone for DeviceInfo {
    /// A cloned descriptor describes the same device.
    fn clone(&self) -> (r: Self)
        ensures
            r@ == self@,
    {
        let serial_raw = self.serial_raw.clone();
        proof {
            assert(serial_raw@ =~= self.serial_raw@);
        }
        DeviceInfo {
            serial_raw,
            ready: self.ready,
            boost: self.boost,
            superspeed: self.superspeed,
            active: self.active,
        }
    }
}

impl DeviceInfo {
    /// A blank descriptor, as handed to the vendor describe call to fill in:
    /// no serial, no flags set.
    pub fn new() -> (r: DeviceInfo)
        ensures
            r.serial_raw@ == Seq::<u32>::empty(),
            !r.ready && !r.boost && !r.superspeed && !r.active,
    {
        DeviceInfo {
            serial_raw: Vec::new(),
            ready: false,
            boost: false,
            superspeed: false,
            active: false,
        }
    }

    /// The decoded serial number.
    pub fn serial(&self) -> (r: String)
        ensures
            r@ == wide_lossy(self.serial_raw@),
    {
        decode_wide(&self.serial_raw)
    }

    /// Whether the device is ready for use.
    pub fn ready(&self) -> (r: bool)
        ensures
            r == self.ready,
    {
        self.ready
    }

    /// Whether the device runs in boost mode.
    pub fn boost(&self) -> (r: bool)
        ensures
            r == self.boost,
    {
        self.boost
    }

    /// Whether the device is attached over a superspeed link.
    pub fn superspeed(&self) -> (r: bool)
        ensures
            r == self.superspeed,
    {
        self.superspeed
    }

    /// Whether the device is currently in use.
    pub fn active(&self) -> (r: bool)
        ensures
            r == self.active,
    {
        self.active
    }
}

/// One answer of the describe-by-index primitive: its status code and the
/// descriptor it filled in (meaningful only when the code is the success
/// code).
pub struct EnumResponse {
    pub code: u32,
    pub info: DeviceInfo,
}

/// What enumeration yields for a sequence of describe-by-index answers: the
/// descriptors up to the first "empty" answer, or the first error.  (The
/// all-success case never arises: the vendor's device list is finite, so some
/// answer terminates the walk; callers establish that.)
pub open spec fn enum_outcome(s: Seq<EnumResponse>) -> Result<Seq<DeviceInfoV>, Error>
    decreases s.len(),
{
    if s.len() == 0 {
        Ok(Seq::empty())
    } else if s[0].code == 0 {
        match enum_outcome(s.drop_first()) {
            Ok(rest) => Ok(seq![s[0].info@] + rest),
            Err(e) => Err(e),
        }
    } else if s[0].code == 1 {
        Ok(Seq::empty())
    } else {
        Err(err_spec(s[0].code))
    }
}

/// `enum_outcome` at the first non-success answer: with `i` the index of that
/// answer, an "empty" code yields exactly the descriptors before it, and any
/// other code yields its mapped error.
proof fn lemma_enum_outcome_at(s: Seq<EnumResponse>, i: int)
    requires
        0 <= i < s.len(),
        forall|j: int| 0 <= j < i ==> s[j].code == 0,
        s[i].code != 0,
    ensures
        s[i].code == 1 ==> enum_outcome(s) == Ok::<Seq<DeviceInfoV>, Error>(
            Seq::new(i as nat, |j: int| s[j].info@),
        ),
        s[i].code != 1 ==> enum_outcome(s) == Err::<Seq<DeviceInfoV>, Error>(err_spec(s[i].code)),
    decreases i,
{
    if i == 0 {
        if s[0].code == 1 {
            assert(Seq::new(0, |j: int| s[j].info@) =~= Seq::<DeviceInfoV>::empty());
        }
    } else {
        let t = s.drop_first();
        lemma_enum_outcome_at(t, i - 1);
        if s[i].code == 1 {
            assert(seq![s[0].info@] + Seq::new((i - 1) as nat, |j: int| t[j].info@) =~= Seq::new(
                i as nat,
                |j: int| s[j].info@,
            ));
        }
    }
}

/// Enumeration is decided after finitely many calls: with the first
/// non-success answer at index `i`, nothing past that answer matters to the
/// outcome — in particular, with no device present the very first ("empty")
/// answer already decides it.
pub proof fn lemma_enum_outcome_bounded(s: Seq<EnumResponse>, i: int)
    requires
        0 <= i < s.len(),
        forall|j: int| 0 <= j < i ==> s[j].code == 0,
        s[i].code != 0,
    ensures
        enum_outcome(s) == enum_outcome(s.take(i + 1)),
{
    lemma_enum_outcome_at(s, i);
    let t = s.take(i + 1);
    lemma_enum_outcome_at(t, i);
    if s[i].code == 1 {
        assert(Seq::new(i as nat, |j: int| s[j].info@) =~= Seq::new(i as nat, |j: int| t[j].info@));
    }
}

/// Enumeration: walks the describe-by-index answers in order, collecting
/// descriptors, and stops at the first non-success answer — "empty" ends the
/// walk normally, anything else aborts it with that error.  The walk
/// terminates after finitely many steps even if no device is present (the
/// very first answer is then already "empty").
pub fn collect_devices(responses: &Vec<EnumResponse>) -> (r: Result<Vec<DeviceInfo>, Error>)
    requires
        exists|i: int| 0 <= i < responses@.len() && responses@[i].code != 0,
    ensures
        r matches Ok(devs) ==> enum_outcome(responses@) == Ok::<Seq<DeviceInfoV>, Error>(
            devs@.map_values(|d: DeviceInfo| d@),
        ),
        r matches Err(e) ==> enum_outcome(responses@) == Err::<Seq<DeviceInfoV>, Error>(e),
    {
    let n = responses.len();
    let mut devs: Vec<DeviceInfo> = Vec::new();
    let mut i: usize = 0;
    loop
        invariant
            n == responses@.len(),
            i <= n,
            devs@.len() == i,
            forall|j: int| 0 <= j < i ==> responses@[j].code == 0,
            forall|j: int| 0 <= j < i ==> devs@[j]@ == responses@[j].info@,
            exists|k: int| 0 <= k < responses@.len() && responses@[k].code != 0,
        ensures
            i < responses@.len(),
            responses@[i as int].code != 0,
            devs@.len() == i,
            forall|j: int| 0 <= j < i ==> responses@[j].code == 0,
            forall|j: int| 0 <= j < i ==> devs@[j]@ == responses@[j].info@,
        decreases responses@.len() - i,
    {
        proof {
            let k = choose|k: int| 0 <= k < responses@.len() && responses@[k].code != 0;
            assert(i < responses@.len());
        }
        let resp = &responses[i];
        if resp.code != 0 {
            break ;
        }
        devs.push(resp.info.clone());
        i = i + 1;
    }
    proof {
        lemma_enum_outcome_at(responses@, i as int);
    }
    let code = responses[i].code;
    if code == 1 {
        proof {
            assert(devs@.map_values(|d: DeviceInfo| d@) =~= Seq::new(
                i as nat,
                |j: int| responses@[j].info@,
            ));
        }
        Ok(devs)
    } else {
        Err(err_of(code))
    }
}

/// What a rescan yields for a sequence of rescan-call answers: the meaning of
/// the first answer that is not "retry".
pub open spec fn rescan_spec(s: Seq<u32>) -> Result<(), Error>
    decreases s.len(),
{
    if s.len() == 0 {
        Ok(())
    } else if s[0] == 2 {
        rescan_spec(s.drop_first())
    } else {
        res_spec(s[0])
    }
}

/// `rescan_spec` at the first non-retry answer.
proof fn lemma_rescan_spec_at(s: Seq<u32>, i: int)
    requires
        0 <= i < s.len(),
        forall|j: int| 0 <= j < i ==> s[j] == 2,
        s[i] != 2,
    ensures
        rescan_spec(s) == res_spec(s[i]),
    decreases i,
{
    if i > 0 {
        lemma_rescan_spec_at(s.drop_first(), i - 1);
    }
}

/// A leading "retry" answer never changes what a rescan yields.
pub proof fn lemma_rescan_ignores_retry(s: Seq<u32>)
    ensures
        rescan_spec(seq![2u32] + s) == rescan_spec(s),
{
    assert((seq![2u32] + s).drop_first() =~= s);
}

/// Rescan: retries the bounded-time rescan primitive for as long as it
/// answers "retry" and yields the meaning of the first other answer.  The
/// wrapper imposes no retry bound of its own; the walk ends when the vendor
/// stops answering "retry" (callers establish that some answer does).
pub fn rescan_outcome(responses: &Vec<u32>) -> (r: Result<(), Error>)
    requires
        exists|i: int| 0 <= i < responses@.len() && responses@[i] != 2,
    ensures
        r == rescan_spec(responses@),
{
    let n = responses.len();
    let mut i: usize = 0;
    loop
        invariant
            n == responses@.len(),
            i <= n,
            forall|j: int| 0 <= j < i ==> responses@[j] == 2,
            exists|k: int| 0 <= k < responses@.len() && responses@[k] != 2,
        ensures
            i < responses@.len(),
            responses@[i as int] != 2,
            forall|j: int| 0 <= j < i ==> responses@[j] == 2,
        decreases responses@.len() - i,
    {
        proof {
            let k = choose|k: int| 0 <= k < responses@.len() && responses@[k] != 2;
            assert(i < responses@.len());
        }
        if responses[i] != 2 {
            break ;
        }
        i = i + 1;
    }
    proof {
        lemma_rescan_spec_at(responses@, i as int);
    }
    res(responses[i])
}

/// Picking the device to use: the first of the discovered list, or the
/// "empty" error when nothing was discovered.
pub fn first_device(devs: &Vec<DeviceInfo>) -> (r: Result<DeviceInfo, Error>)
    ensures
        devs@.len() == 0 <==> r == Err::<DeviceInfo, Error>(Error::Empty),
        devs@.len() > 0 <==> r is Ok,
        r matches Ok(d) ==> devs@.len() > 0 && d@ == devs@[0]@,
{
    if devs.len() == 0 {
        Err(Error::Empty)
    } else {
        Ok(devs[0].clone())
    }
}

} // verus!
