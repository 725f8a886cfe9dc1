//! The supported device models and the USB identifiers they enumerate under.

use vstd::prelude::*;

verus! {

/// Shure's USB vendor identifier.
pub const VID: u16 = 0x14ED;

/// USB product identifier of the MVX2U.
pub const PID: u16 = 0x1013;

/// USB product identifier of the MVX2U Gen 2.
pub const MVX2U_GEN2_PID: u16 = 0x1033;

/// USB product identifier of the MV6.
pub const MV6_PID: u16 = 0x1026;

/// USB product identifier of the original MV7.
pub const MV7_PID: u16 = 0x1012;

/// USB product identifier of the MV7+.
pub const MV7_PLUS_PID: u16 = 0x1019;

/// A supported microphone or interface.
#[derive(Clone, Copy, Debug, PartialEq, Eq, Structural)]
pub enum DeviceModel {
    /// XLR-to-USB interface, first generation.
    Mvx2u,
    /// XLR-to-USB interface, second generation.
    Mvx2uGen2,
    /// USB gaming microphone.
    Mv6,
    /// USB/XLR dynamic microphone. The only model that speaks the text protocol.
    Mv7,
    /// USB/XLR dynamic microphone, successor of the MV7.
    Mv7Plus,
}

impl DeviceModel {
    /// The product identifier a model enumerates under.
    pub open spec fn pid(self) -> u16 {
        match self {
            DeviceModel::Mvx2u => PID,
            DeviceModel::Mvx2uGen2 => MVX2U_GEN2_PID,
            DeviceModel::Mv6 => MV6_PID,
            DeviceModel::Mv7 => MV7_PID,
            DeviceModel::Mv7Plus => MV7_PLUS_PID,
        }
    }

    /// The model that enumerates under `pid`, if one does.
    pub open spec fn with_pid(pid: u16) -> Option<DeviceModel> {
        if exists|m: DeviceModel| #[trigger] m.pid() == pid {
            Some(choose|m: DeviceModel| #[trigger] m.pid() == pid)
        } else {
            None
        }
    }

    /// The model that enumerates under `pid`, if one does.
    pub fn from_pid(pid: u16) -> (model: Option<DeviceModel>)
        ensures
            model == Self::with_pid(pid),
    {
        let model = if pid == PID {
            Some(DeviceModel::Mvx2u)
        } else if pid == MVX2U_GEN2_PID {
            Some(DeviceModel::Mvx2uGen2)
        } else if pid == MV6_PID {
            Some(DeviceModel::Mv6)
        } else if pid == MV7_PID {
            Some(DeviceModel::Mv7)
        } else if pid == MV7_PLUS_PID {
            Some(DeviceModel::Mv7Plus)
        } else {
            None
        };
        proof {
            if model is Some {
                assert(model->0.pid() == pid);
                law_pid_names_one_model(model->0, Self::with_pid(pid)->0);
            }
        }
        model
    }
}

/// No two models enumerate under the same product identifier.
pub proof fn law_pid_names_one_model(a: DeviceModel, b: DeviceModel)
    requires
        a.pid() == b.pid(),
    ensures
        a == b,
{
}

/// The product identifiers of the five models, and no others, name a model.
pub proof fn law_product_ids(pid: u16, model: Option<DeviceModel>)
    requires
        call_ensures(DeviceModel::from_pid, (pid,), model),
    ensures
        model == Some(DeviceModel::Mvx2u) <==> pid == 0x1013,
        model == Some(DeviceModel::Mvx2uGen2) <==> pid == 0x1033,
        model == Some(DeviceModel::Mv6) <==> pid == 0x1026,
        model == Some(DeviceModel::Mv7) <==> pid == 0x1012,
        model == Some(DeviceModel::Mv7Plus) <==> pid == 0x1019,
{
    assert(DeviceModel::Mvx2u.pid() == 0x1013);
    assert(DeviceModel::Mvx2uGen2.pid() == 0x1033);
    assert(DeviceModel::Mv6.pid() == 0x1026);
    assert(DeviceModel::Mv7.pid() == 0x1012);
    assert(DeviceModel::Mv7Plus.pid() == 0x1019);
}

} // verus!
