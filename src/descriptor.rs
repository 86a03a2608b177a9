use vstd::prelude::*;

verus! {

/// Descriptor type of a configuration descriptor.
pub const CONFIGURATION: u8 = 0x02;

/// Descriptor type of a class-specific audio control interface descriptor.
pub const CS_INTERFACE: u8 = 0x24;

/// A USB configuration descriptor set, as read from the device.
pub struct Configuration {
    pub data: Vec<u8>,
}

/// A configuration descriptor `d` within a set of `total` bytes: nine bytes or more, its
/// length byte equal to its size, its type CONFIGURATION, and its total length `total`.
pub open spec fn configuration_ok(d: Seq<u8>, total: int) -> bool {
    &&& d.len() >= 9
    &&& d[0] == d.len()
    &&& d[1] == CONFIGURATION
    &&& d[2] + 256 * d[3] == total
}

/// A class-specific descriptor: three bytes or more, its length byte equal to its size.
pub open spec fn class_specific_ok(d: Seq<u8>) -> bool {
    &&& d.len() >= 3
    &&& d[0] == d.len()
    &&& d[1] == CS_INTERFACE
}

/// The descriptors from offset `i` on each fit in the data (length byte 2 or more), and
/// the configuration and class-specific ones among them are well formed.
pub open spec fn descriptors_ok(data: Seq<u8>, i: int) -> bool
    decreases data.len() - i,
{
    if i < 0 || i >= data.len() {
        true
    } else if i + 1 >= data.len() || data[i] < 2 || i + data[i] > data.len() {
        false
    } else {
        let d = data.subrange(i, i + data[i]);
        let here = if data[i + 1] == CONFIGURATION {
            configuration_ok(d, data.len() as int)
        } else if data[i + 1] == CS_INTERFACE {
            class_specific_ok(d)
        } else {
            true
        };
        here && descriptors_ok(data, i + data[i])
    }
}

impl Configuration {
    /// Walks the descriptor set; true when every descriptor is well formed.
    pub fn parse(&self) -> (r: bool)
        ensures
            r == descriptors_ok(self.data@, 0),
    {
        let mut i: usize = 0;
        let len = self.data.len();
        while i < len
            invariant
                len == self.data@.len(),
                i <= len,
                descriptors_ok(self.data@, i as int) == descriptors_ok(self.data@, 0),
            decreases len - i,
        {
            if i + 1 >= len {
                return false;
            }
            let b_length = self.data[i] as usize;
            let b_descriptor_type = self.data[i + 1];
            if b_length < 2 || b_length > len - i {
                return false;
            }
            let d = slice_of(&self.data, i, i + b_length);
            let ok = if b_descriptor_type == CONFIGURATION {
                self.parse_configuration(&d)
            } else if b_descriptor_type == CS_INTERFACE {
                self.parse_class_specific_ac_descriptor(&d)
            } else {
                true
            };
            if !ok {
                return false;
            }
            i = i + b_length;
        }
        true
    }

    /// Checks a class-specific audio control descriptor.
    pub fn parse_class_specific_ac_descriptor(&self, d: &Vec<u8>) -> (r: bool)
        ensures
            r == class_specific_ok(d@),
    {
        if d.len() < 3 {
            return false;
        }
        d[0] as usize == d.len() && d[1] == CS_INTERFACE
    }

    /// Checks a configuration descriptor against the whole set.
    pub fn parse_configuration(&self, d: &Vec<u8>) -> (r: bool)
        ensures
            r == configuration_ok(d@, self.data@.len() as int),
    {
        if d.len() < 9 {
            return false;
        }
        let b_length = d[0];
        let b_descriptor_type = d[1];
        let w_total_length: u32 = d[2] as u32 + 256 * d[3] as u32;
        b_length as usize == d.len() && b_descriptor_type == CONFIGURATION && w_total_length as usize
            == self.data.len()
    }
}

/// Bytes `from..to` of `v`.
fn slice_of(v: &Vec<u8>, from: usize, to: usize) -> (r: Vec<u8>)
    requires
        from <= to <= v@.len(),
    ensures
        r@ == v@.subrange(from as int, to as int),
{
    let mut r: Vec<u8> = Vec::new();
    let mut i: usize = from;
    while i < to
        invariant
            from <= i <= to <= v@.len(),
            r@ == v@.subrange(from as int, i as int),
        decreases to - i,
    {
        r.push(v[i]);
        i = i + 1;
        assert(r@ =~= v@.subrange(from as int, i as int));
    }
    r
}

} // verus!
