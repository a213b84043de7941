use vstd::prelude::*;

verus! {

/// One HID interface of a USB device.
#[derive(Debug, Clone)]
pub struct UsbDeviceInfo {
    pub vendor_id: u16,
    pub product_id: u16,
    pub manufacturer: Option<String>,
    pub product_name: Option<String>,
    pub serial_number: Option<String>,
    pub interface_number: i32,
    pub path: String,
}

/// Whether `d` has vendor `vid` and one of the product ids `pids`.
pub open spec fn matches_vid_pid(d: UsbDeviceInfo, vid: u16, pids: Seq<u16>) -> bool {
    d.vendor_id == vid && pids.contains(d.product_id)
}

pub struct UsbScanner;

fn contains_pid(pids: &[u16], pid: u16) -> (b: bool)
    ensures
        b == pids@.contains(pid),
{
    let n = pids.len();
    let mut i: usize = 0;
    while i < n
        invariant
            n == pids@.len(),
            i <= n,
            forall|j: int| 0 <= j < i ==> pids@[j] != pid,
        decreases n - i,
    {
        if pids[i] == pid {
            assert(pids@[i as int] == pid);
            return true;
        }
        i = i + 1;
    }
    false
}

impl UsbScanner {
    /// The devices among `devices` (as enumerated from the HID bus) with vendor `vid` and one of
    /// the product ids `pids`, in the order they were given.
    pub fn find_by_vid_pid(devices: Vec<UsbDeviceInfo>, vid: u16, pids: &[u16]) -> (matched: Vec<UsbDeviceInfo>)
        ensures
            matched@ == devices@.filter(|d: UsbDeviceInfo| matches_vid_pid(d, vid, pids@)),
    {
        let ghost all = devices@;
        let ghost pred = |d: UsbDeviceInfo| matches_vid_pid(d, vid, pids@);
        let mut rest = devices;
        let mut matched: Vec<UsbDeviceInfo> = Vec::new();
        let mut k: usize = 0;
        let n = rest.len();
        while k < n
            invariant
                n == all.len(),
                k <= n,
                rest@ == all.skip(k as int),
                pred == (|d: UsbDeviceInfo| matches_vid_pid(d, vid, pids@)),
                matched@ == all.take(k as int).filter(pred),
            decreases n - k,
        {
            let d = rest.remove(0);
            assert(d == all[k as int]);
            let keep = if d.vendor_id == vid { contains_pid(pids, d.product_id) } else { false };
            assert(pred(d) == matches_vid_pid(d, vid, pids@));
            assert(keep == pred(d));
            if keep {
                matched.push(d);
            }
            proof {
                reveal_with_fuel(Seq::filter, 1);
                assert(all.take(k + 1).drop_last() =~= all.take(k as int));
                assert(rest@ =~= all.skip(k + 1));
            }
            k = k + 1;
        }
        assert(all.take(n as int) =~= all);
        matched
    }
}

} // verus!
