use vstd::prelude::*;

verus! {

/// Optional device features that a renderer may require.
#[derive(Debug, Default, Clone, Copy, PartialEq, Eq, Structural)]
pub struct Features {
    pub geometry_shader: bool,
    pub tessellation_shader: bool,
    pub runtime_descriptor_array: bool,
    pub sampler_anisotropy: bool,
    pub fragment_stores_and_atomics: bool,
}

impl Features {
    pub open spec fn none_spec() -> Features {
        Features {
            geometry_shader: false,
            tessellation_shader: false,
            runtime_descriptor_array: false,
            sampler_anisotropy: false,
            fragment_stores_and_atomics: false,
        }
    }

    /// No feature is required.
    pub fn none() -> (r: Self)
        ensures
            r == Self::none_spec(),
    {
        Features {
            geometry_shader: false,
            tessellation_shader: false,
            runtime_descriptor_array: false,
            sampler_anisotropy: false,
            fragment_stores_and_atomics: false,
        }
    }

    /// Every feature is required.
    pub fn all() -> (r: Self)
        ensures
            r.geometry_shader,
            r.tessellation_shader,
            r.runtime_descriptor_array,
            r.sampler_anisotropy,
            r.fragment_stores_and_atomics,
    {
        Features {
            geometry_shader: true,
            tessellation_shader: true,
            runtime_descriptor_array: true,
            sampler_anisotropy: true,
            fragment_stores_and_atomics: true,
        }
    }

    /// Every feature required by `self` is present in `available`.
    pub open spec fn satisfied_by(self, available: Features) -> bool {
        &&& (self.geometry_shader ==> available.geometry_shader)
        &&& (self.tessellation_shader ==> available.tessellation_shader)
        &&& (self.runtime_descriptor_array ==> available.runtime_descriptor_array)
        &&& (self.sampler_anisotropy ==> available.sampler_anisotropy)
        &&& (self.fragment_stores_and_atomics ==> available.fragment_stores_and_atomics)
    }

    /// Whether a device that reports `available` offers every feature that
    /// `self` requires.
    pub fn is_supported_by(&self, available: &Features) -> (r: bool)
        ensures
            r == self.satisfied_by(*available),
    {
        (!self.geometry_shader || available.geometry_shader)
            && (!self.tessellation_shader || available.tessellation_shader)
            && (!self.runtime_descriptor_array || available.runtime_descriptor_array)
            && (!self.sampler_anisotropy || available.sampler_anisotropy)
            && (!self.fragment_stores_and_atomics || available.fragment_stores_and_atomics)
    }
}

} // verus!
