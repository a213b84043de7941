use vstd::prelude::*;

verus! {

/// GPU and memory-controller utilisation in percent, as NVML reports them.
#[derive(Debug, Clone, Copy, Default)]
pub struct NvmlUtilization {
    pub gpu: u32,
    pub memory: u32,
}

/// Total, free and used video memory in bytes, as NVML reports them.
#[derive(Debug, Clone, Copy, Default)]
pub struct NvmlMemory {
    pub total: u64,
    pub free: u64,
    pub used: u64,
}

/// Whether `s` contains the text `5080`.
pub open spec fn names_5080(s: Seq<char>) -> bool {
    exists|i: int| 0 <= i && i + 4 <= s.len() && #[trigger] s.subrange(i, i + 4) == seq!['5', '0', '8', '0']
}

/// Whether `name` contains the text `5080`.
pub fn contains_5080(name: &str) -> (b: bool)
    ensures
        b == names_5080(name@),
{
    let n = name.unicode_len();
    if n < 4 {
        return false;
    }
    let mut i: usize = 0;
    while i <= n - 4
        invariant
            n == name@.len(),
            n >= 4,
            i <= n - 3,
            forall|j: int| 0 <= j < i ==> #[trigger] name@.subrange(j, j + 4) != seq!['5', '0', '8', '0'],
        decreases n - i,
    {
        if name.get_char(i) == '5' && name.get_char(i + 1) == '0' && name.get_char(i + 2) == '8'
            && name.get_char(i + 3) == '0' {
            assert(name@.subrange(i as int, i + 4) =~= seq!['5', '0', '8', '0']);
            return true;
        }
        assert(name@.subrange(i as int, i + 4) != seq!['5', '0', '8', '0']) by {
            let s = name@.subrange(i as int, i + 4);
            if s == seq!['5', '0', '8', '0'] {
                assert(s[0] == name@[i as int]);
                assert(s[1] == name@[i + 1]);
                assert(s[2] == name@[i + 2]);
                assert(s[3] == name@[i + 3]);
            }
        }
        i = i + 1;
    }
    assert forall|j: int| 0 <= j && j + 4 <= n implies #[trigger] name@.subrange(j, j + 4) != seq!['5', '0', '8', '0'] by {
        assert(j < i);
    }
    false
}

/// Whether entry `i` of `names` is a name that contains `5080`.
pub open spec fn is_5080_at(names: Seq<Option<String>>, i: int) -> bool {
    names[i] matches Some(s) && names_5080(s@)
}

/// Picks the GPU to monitor among the devices whose names could be read (`None` for one that
/// could not): the first whose name contains `5080`, or else the first one named.
pub fn select_gpu(names: &Vec<Option<String>>) -> (r: Option<usize>)
    ensures
        match r {
            Some(i) => {
                &&& 0 <= i < names@.len()
                &&& names@[i as int] is Some
                &&& (is_5080_at(names@, i as int) && forall|j: int| 0 <= j < i ==> !is_5080_at(names@, j))
                    || ((forall|j: int| 0 <= j < names@.len() ==> !is_5080_at(names@, j)) && forall|j: int|
                    0 <= j < i ==> names@[j] is None)
            },
            None => forall|j: int| 0 <= j < names@.len() ==> names@[j] is None,
        },
{
    let n = names.len();
    let mut selected: Option<usize> = None;
    let mut i: usize = 0;
    while i < n
        invariant
            n == names@.len(),
            i <= n,
            forall|j: int| 0 <= j < i ==> !is_5080_at(names@, j),
            match selected {
                Some(k) => k < i && names@[k as int] is Some && forall|j: int| 0 <= j < k ==> names@[j] is None,
                None => forall|j: int| 0 <= j < i ==> names@[j] is None,
            },
        decreases n - i,
    {
        match &names[i] {
            Some(name) => {
                if contains_5080(name.as_str()) {
                    return Some(i);
                }
                if selected.is_none() {
                    selected = Some(i);
                }
            },
            None => {},
        }
        i = i + 1;
    }
    selected
}

} // verus!
