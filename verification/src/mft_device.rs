//! The Direct3D device that the hardware decoder shares, and rings of textures
//! that two devices share. The calls into the system are the caller's.
use vstd::prelude::*;

use crate::d3d11::TextureDesc;

verus! {

/// The flag of a texture that two devices share under a keyed mutex.
pub const MISC_SHARED_KEYEDMUTEX: u32 = 0x100;

/// The shared device, by its address, where there is one.
#[derive(Debug, Clone, Copy, PartialEq, Eq, Structural)]
pub struct SharedDevice {
    pub device: Option<usize>,
}

/// What to do to have a device for the decoder.
#[derive(Debug, Clone, Copy, PartialEq, Eq, Structural)]
pub enum InitStep {
    /// Hand this device to the decoder again.
    Reregister(usize),
    /// Select a device.
    Select,
}

impl SharedDevice {
    /// No device yet.
    pub fn new() -> (r: SharedDevice)
        ensures
            r.device is None,
    {
        SharedDevice { device: None }
    }

    /// What to do to have a device for the decoder: the one that is there is
    /// handed over again, and one is selected where there is none.
    pub fn init_for_mft_decode(&self) -> (r: InitStep)
        ensures
            r == match self.device {
                Some(d) => InitStep::Reregister(d),
                None => InitStep::Select,
            },
    {
        match self.device {
            Some(d) => InitStep::Reregister(d),
            None => InitStep::Select,
        }
    }

    /// Keeps the device that was selected: the one to hand to the decoder.
    /// Where selecting failed there is none, and decoding stays in software.
    pub fn selected(&mut self, device: Option<usize>) -> (r: Option<usize>)
        ensures
            r == device,
            final(self).device == match device {
                Some(d) => Some(d),
                None => old(self).device,
            },
    {
        if let Some(d) = device {
            self.device = Some(d);
        }
        device
    }

    /// The shared device.
    pub fn get_shared_device(&self) -> (r: Option<usize>)
        ensures
            r == self.device,
    {
        self.device
    }

    /// Lets go of the device; the decoder is to be given none.
    pub fn clear_mft_device(&mut self)
        ensures
            final(self).device is None,
    {
        self.device = None;
    }
}

/// Why a shared texture could not be had.
#[derive(Debug, Clone, PartialEq, Eq)]
pub enum D3d11SharedTextureError {
    Win(String),
    CreateTextureNull,
    OpenSharedTextureNull,
}

impl D3d11SharedTextureError {
    /// The text of the error.
    pub fn message(&self) -> (r: String)
        ensures
            r@ == match *self {
                D3d11SharedTextureError::Win(s) => "Windows: "@ + s@,
                D3d11SharedTextureError::CreateTextureNull =>
                "create shared texture returned null"@,
                D3d11SharedTextureError::OpenSharedTextureNull =>
                "open shared texture returned null"@,
            },
    {
        match self {
            D3d11SharedTextureError::Win(s) => {
                let mut r = "Windows: ".to_owned();
                r.push_str(s.as_str());
                r
            },
            D3d11SharedTextureError::CreateTextureNull => {
                "create shared texture returned null".to_owned()
            },
            D3d11SharedTextureError::OpenSharedTextureNull => {
                "open shared texture returned null".to_owned()
            },
        }
    }
}

/// A texture of the ring: as the base says, shared under a keyed mutex.
pub fn shared_texture_desc(base: TextureDesc) -> (r: TextureDesc)
    ensures
        r == (TextureDesc { misc_flags: MISC_SHARED_KEYEDMUTEX, ..base }),
{
    let mut r = base;
    r.misc_flags = MISC_SHARED_KEYEDMUTEX;
    r
}

/// What came of making one texture of the ring.
#[derive(Debug, Clone, Copy, PartialEq, Eq, Structural)]
pub struct SharedTrial {
    pub created: bool,
    pub opened: bool,
}

/// Checks one texture of the ring: it was created, and the other device opened it.
pub fn check_shared_texture(t: SharedTrial) -> (r: Result<(), D3d11SharedTextureError>)
    ensures
        r == if !t.created {
            Err::<(), D3d11SharedTextureError>(D3d11SharedTextureError::CreateTextureNull)
        } else if !t.opened {
            Err(D3d11SharedTextureError::OpenSharedTextureNull)
        } else {
            Ok(())
        },
{
    if !t.created {
        Err(D3d11SharedTextureError::CreateTextureNull)
    } else if !t.opened {
        Err(D3d11SharedTextureError::OpenSharedTextureNull)
    } else {
        Ok(())
    }
}

} // verus!
