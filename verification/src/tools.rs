use vstd::prelude::*;

verus! {

/// Conversion of an integer coordinate into a grid index.
/// Signed values convert by absolute value, so a negative coordinate
/// never wraps into a huge index.
pub trait ToUsize: Sized {
    spec fn to_usize_spec(self) -> usize;

    fn to_usize(self) -> (r: usize)
        ensures
            r == self.to_usize_spec(),
    ;
}

impl ToUsize for u8 {
    open spec fn to_usize_spec(self) -> usize {
        self as usize
    }

    fn to_usize(self) -> usize {
        self as usize
    }
}

impl ToUsize for u16 {
    open spec fn to_usize_spec(self) -> usize {
        self as usize
    }

    fn to_usize(self) -> usize {
        self as usize
    }
}

impl ToUsize for u32 {
    open spec fn to_usize_spec(self) -> usize {
        self as usize
    }

    fn to_usize(self) -> usize {
        self as usize
    }
}

impl ToUsize for u64 {
    open spec fn to_usize_spec(self) -> usize {
        self as usize
    }

    fn to_usize(self) -> usize {
        self as usize
    }
}

impl ToUsize for usize {
    open spec fn to_usize_spec(self) -> usize {
        self
    }

    fn to_usize(self) -> usize {
        self
    }
}

impl ToUsize for i8 {
    open spec fn to_usize_spec(self) -> usize {
        if self >= 0 {
            self as usize
        } else {
            (-(self as i64)) as usize
        }
    }

    fn to_usize(self) -> usize {
        if self >= 0 {
            self as usize
        } else {
            (-(self as i64)) as usize
        }
    }
}

impl ToUsize for i16 {
    open spec fn to_usize_spec(self) -> usize {
        if self >= 0 {
            self as usize
        } else {
            (-(self as i64)) as usize
        }
    }

    fn to_usize(self) -> usize {
        if self >= 0 {
            self as usize
        } else {
            (-(self as i64)) as usize
        }
    }
}

impl ToUsize for i32 {
    open spec fn to_usize_spec(self) -> usize {
        if self >= 0 {
            self as usize
        } else {
            (-(self as i64)) as usize
        }
    }

    fn to_usize(self) -> usize {
        if self >= 0 {
            self as usize
        } else {
            (-(self as i64)) as usize
        }
    }
}

impl ToUsize for i64 {
    open spec fn to_usize_spec(self) -> usize {
        if self >= 0 {
            self as usize
        } else {
            (-(self as i128)) as usize
        }
    }

    fn to_usize(self) -> usize {
        if self >= 0 {
            self as usize
        } else {
            (-(self as i128)) as usize
        }
    }
}

impl ToUsize for isize {
    open spec fn to_usize_spec(self) -> usize {
        if self >= 0 {
            self as usize
        } else {
            (-(self as i128)) as usize
        }
    }

    fn to_usize(self) -> usize {
        if self >= 0 {
            self as usize
        } else {
            (-(self as i128)) as usize
        }
    }
}

} // verus!
