//! The closed catalog of signal kinds.
//!
//! A kind names one engineering quantity exchanged between simulation
//! components (a force, a displacement, a command, a sensor reading).
//! The catalog is fixed before the system is composed: the variants below
//! are the sorted, deduplicated entries of the curated list in
//! [`crate::catalog::io_list`], and adding a kind is a catalog change,
//! never a run-time operation.

use vstd::prelude::*;

verus! {

/// One entry of the closed signal catalog.
///
/// Identity is the kind name alone; a kind carries no payload itself.
#[derive(Clone, Copy, Debug, PartialEq, Eq, Structural)]
pub enum Kind {
    HPFcmd,
    M1ActuatorsSegment1,
    M1ActuatorsSegment2,
    M1ActuatorsSegment3,
    M1ActuatorsSegment4,
    M1ActuatorsSegment5,
    M1ActuatorsSegment6,
    M1ActuatorsSegment7,
    M1CGFM,
    M1HPCmd,
    M1HPLC,
    M1RBMcmd,
    M1S1ACTF,
    M1S1BMcmd,
    M1S1HPLC,
    M1S2ACTF,
    M1S2BMcmd,
    M1S2HPLC,
    M1S3ACTF,
    M1S3BMcmd,
    M1S3HPLC,
    M1S4ACTF,
    M1S4BMcmd,
    M1S4HPLC,
    M1S5ACTF,
    M1S5BMcmd,
    M1S5HPLC,
    M1S6ACTF,
    M1S6BMcmd,
    M1S6HPLC,
    M1S7ACTF,
    M1S7BMcmd,
    M1S7HPLC,
    M1modes,
    M2posFB,
    M2posactF,
    M2poscmd,
    MCM2Lcl6F,
    MCM2RB6F,
    MCM2TE6F,
    MountCmd,
    OSSAzDriveTorque,
    OSSAzEncoderAngle,
    OSSCRING6F,
    OSSCellLcl6F,
    OSSElDriveTorque,
    OSSElEncoderAngle,
    OSSGIR6F,
    OSSHardpointD,
    OSSHarpointDeltaF,
    OSSM1Lcl6F,
    OSSMirrorCovers6F,
    OSSRotDriveTorque,
    OSSRotEncoderAngle,
    OSSTopEnd6F,
    OSSTruss6F,
    PZTF,
    PZTFB,
    Pssn,
    SensorData,
    SrcSegmentGradients,
    SrcSegmentPiston,
    SrcSegmentWfeRms,
    SrcWfeRms,
    TTFB,
    TTSP,
    TTcmd,
}

impl Kind {
    /// The catalog name of this kind, as a sequence of characters.
    pub open spec fn spec_name(self) -> Seq<char> {
        match self {
            Kind::HPFcmd => "HPFcmd"@,
            Kind::M1ActuatorsSegment1 => "M1ActuatorsSegment1"@,
            Kind::M1ActuatorsSegment2 => "M1ActuatorsSegment2"@,
            Kind::M1ActuatorsSegment3 => "M1ActuatorsSegment3"@,
            Kind::M1ActuatorsSegment4 => "M1ActuatorsSegment4"@,
            Kind::M1ActuatorsSegment5 => "M1ActuatorsSegment5"@,
            Kind::M1ActuatorsSegment6 => "M1ActuatorsSegment6"@,
            Kind::M1ActuatorsSegment7 => "M1ActuatorsSegment7"@,
            Kind::M1CGFM => "M1CGFM"@,
            Kind::M1HPCmd => "M1HPCmd"@,
            Kind::M1HPLC => "M1HPLC"@,
            Kind::M1RBMcmd => "M1RBMcmd"@,
            Kind::M1S1ACTF => "M1S1ACTF"@,
            Kind::M1S1BMcmd => "M1S1BMcmd"@,
            Kind::M1S1HPLC => "M1S1HPLC"@,
            Kind::M1S2ACTF => "M1S2ACTF"@,
            Kind::M1S2BMcmd => "M1S2BMcmd"@,
            Kind::M1S2HPLC => "M1S2HPLC"@,
            Kind::M1S3ACTF => "M1S3ACTF"@,
            Kind::M1S3BMcmd => "M1S3BMcmd"@,
            Kind::M1S3HPLC => "M1S3HPLC"@,
            Kind::M1S4ACTF => "M1S4ACTF"@,
            Kind::M1S4BMcmd => "M1S4BMcmd"@,
            Kind::M1S4HPLC => "M1S4HPLC"@,
            Kind::M1S5ACTF => "M1S5ACTF"@,
            Kind::M1S5BMcmd => "M1S5BMcmd"@,
            Kind::M1S5HPLC => "M1S5HPLC"@,
            Kind::M1S6ACTF => "M1S6ACTF"@,
            Kind::M1S6BMcmd => "M1S6BMcmd"@,
            Kind::M1S6HPLC => "M1S6HPLC"@,
            Kind::M1S7ACTF => "M1S7ACTF"@,
            Kind::M1S7BMcmd => "M1S7BMcmd"@,
            Kind::M1S7HPLC => "M1S7HPLC"@,
            Kind::M1modes => "M1modes"@,
            Kind::M2posFB => "M2posFB"@,
            Kind::M2posactF => "M2posactF"@,
            Kind::M2poscmd => "M2poscmd"@,
            Kind::MCM2Lcl6F => "MCM2Lcl6F"@,
            Kind::MCM2RB6F => "MCM2RB6F"@,
            Kind::MCM2TE6F => "MCM2TE6F"@,
            Kind::MountCmd => "MountCmd"@,
            Kind::OSSAzDriveTorque => "OSSAzDriveTorque"@,
            Kind::OSSAzEncoderAngle => "OSSAzEncoderAngle"@,
            Kind::OSSCRING6F => "OSSCRING6F"@,
            Kind::OSSCellLcl6F => "OSSCellLcl6F"@,
            Kind::OSSElDriveTorque => "OSSElDriveTorque"@,
            Kind::OSSElEncoderAngle => "OSSElEncoderAngle"@,
            Kind::OSSGIR6F => "OSSGIR6F"@,
            Kind::OSSHardpointD => "OSSHardpointD"@,
            Kind::OSSHarpointDeltaF => "OSSHarpointDeltaF"@,
            Kind::OSSM1Lcl6F => "OSSM1Lcl6F"@,
            Kind::OSSMirrorCovers6F => "OSSMirrorCovers6F"@,
            Kind::OSSRotDriveTorque => "OSSRotDriveTorque"@,
            Kind::OSSRotEncoderAngle => "OSSRotEncoderAngle"@,
            Kind::OSSTopEnd6F => "OSSTopEnd6F"@,
            Kind::OSSTruss6F => "OSSTruss6F"@,
            Kind::PZTF => "PZTF"@,
            Kind::PZTFB => "PZTFB"@,
            Kind::Pssn => "Pssn"@,
            Kind::SensorData => "SensorData"@,
            Kind::SrcSegmentGradients => "SrcSegmentGradients"@,
            Kind::SrcSegmentPiston => "SrcSegmentPiston"@,
            Kind::SrcSegmentWfeRms => "SrcSegmentWfeRms"@,
            Kind::SrcWfeRms => "SrcWfeRms"@,
            Kind::TTFB => "TTFB"@,
            Kind::TTSP => "TTSP"@,
            Kind::TTcmd => "TTcmd"@,
        }
    }

    /// The catalog name of this kind, as text.
    pub fn name(&self) -> (r: &'static str)
        ensures
            r@ == self.spec_name(),
    {
        match self {
            Kind::HPFcmd => "HPFcmd",
            Kind::M1ActuatorsSegment1 => "M1ActuatorsSegment1",
            Kind::M1ActuatorsSegment2 => "M1ActuatorsSegment2",
            Kind::M1ActuatorsSegment3 => "M1ActuatorsSegment3",
            Kind::M1ActuatorsSegment4 => "M1ActuatorsSegment4",
            Kind::M1ActuatorsSegment5 => "M1ActuatorsSegment5",
            Kind::M1ActuatorsSegment6 => "M1ActuatorsSegment6",
            Kind::M1ActuatorsSegment7 => "M1ActuatorsSegment7",
            Kind::M1CGFM => "M1CGFM",
            Kind::M1HPCmd => "M1HPCmd",
            Kind::M1HPLC => "M1HPLC",
            Kind::M1RBMcmd => "M1RBMcmd",
            Kind::M1S1ACTF => "M1S1ACTF",
            Kind::M1S1BMcmd => "M1S1BMcmd",
            Kind::M1S1HPLC => "M1S1HPLC",
            Kind::M1S2ACTF => "M1S2ACTF",
            Kind::M1S2BMcmd => "M1S2BMcmd",
            Kind::M1S2HPLC => "M1S2HPLC",
            Kind::M1S3ACTF => "M1S3ACTF",
            Kind::M1S3BMcmd => "M1S3BMcmd",
            Kind::M1S3HPLC => "M1S3HPLC",
            Kind::M1S4ACTF => "M1S4ACTF",
            Kind::M1S4BMcmd => "M1S4BMcmd",
            Kind::M1S4HPLC => "M1S4HPLC",
            Kind::M1S5ACTF => "M1S5ACTF",
            Kind::M1S5BMcmd => "M1S5BMcmd",
            Kind::M1S5HPLC => "M1S5HPLC",
            Kind::M1S6ACTF => "M1S6ACTF",
            Kind::M1S6BMcmd => "M1S6BMcmd",
            Kind::M1S6HPLC => "M1S6HPLC",
            Kind::M1S7ACTF => "M1S7ACTF",
            Kind::M1S7BMcmd => "M1S7BMcmd",
            Kind::M1S7HPLC => "M1S7HPLC",
            Kind::M1modes => "M1modes",
            Kind::M2posFB => "M2posFB",
            Kind::M2posactF => "M2posactF",
            Kind::M2poscmd => "M2poscmd",
            Kind::MCM2Lcl6F => "MCM2Lcl6F",
            Kind::MCM2RB6F => "MCM2RB6F",
            Kind::MCM2TE6F => "MCM2TE6F",
            Kind::MountCmd => "MountCmd",
            Kind::OSSAzDriveTorque => "OSSAzDriveTorque",
            Kind::OSSAzEncoderAngle => "OSSAzEncoderAngle",
            Kind::OSSCRING6F => "OSSCRING6F",
            Kind::OSSCellLcl6F => "OSSCellLcl6F",
            Kind::OSSElDriveTorque => "OSSElDriveTorque",
            Kind::OSSElEncoderAngle => "OSSElEncoderAngle",
            Kind::OSSGIR6F => "OSSGIR6F",
            Kind::OSSHardpointD => "OSSHardpointD",
            Kind::OSSHarpointDeltaF => "OSSHarpointDeltaF",
            Kind::OSSM1Lcl6F => "OSSM1Lcl6F",
            Kind::OSSMirrorCovers6F => "OSSMirrorCovers6F",
            Kind::OSSRotDriveTorque => "OSSRotDriveTorque",
            Kind::OSSRotEncoderAngle => "OSSRotEncoderAngle",
            Kind::OSSTopEnd6F => "OSSTopEnd6F",
            Kind::OSSTruss6F => "OSSTruss6F",
            Kind::PZTF => "PZTF",
            Kind::PZTFB => "PZTFB",
            Kind::Pssn => "Pssn",
            Kind::SensorData => "SensorData",
            Kind::SrcSegmentGradients => "SrcSegmentGradients",
            Kind::SrcSegmentPiston => "SrcSegmentPiston",
            Kind::SrcSegmentWfeRms => "SrcSegmentWfeRms",
            Kind::SrcWfeRms => "SrcWfeRms",
            Kind::TTFB => "TTFB",
            Kind::TTSP => "TTSP",
            Kind::TTcmd => "TTcmd",
        }
    }
}


/// The full catalog, in its sorted order, as a sequence.
pub open spec fn spec_all_kinds() -> Seq<Kind> {
    seq![
        Kind::HPFcmd,
        Kind::M1ActuatorsSegment1,
        Kind::M1ActuatorsSegment2,
        Kind::M1ActuatorsSegment3,
        Kind::M1ActuatorsSegment4,
        Kind::M1ActuatorsSegment5,
        Kind::M1ActuatorsSegment6,
        Kind::M1ActuatorsSegment7,
        Kind::M1CGFM,
        Kind::M1HPCmd,
        Kind::M1HPLC,
        Kind::M1RBMcmd,
        Kind::M1S1ACTF,
        Kind::M1S1BMcmd,
        Kind::M1S1HPLC,
        Kind::M1S2ACTF,
        Kind::M1S2BMcmd,
        Kind::M1S2HPLC,
        Kind::M1S3ACTF,
        Kind::M1S3BMcmd,
        Kind::M1S3HPLC,
        Kind::M1S4ACTF,
        Kind::M1S4BMcmd,
        Kind::M1S4HPLC,
        Kind::M1S5ACTF,
        Kind::M1S5BMcmd,
        Kind::M1S5HPLC,
        Kind::M1S6ACTF,
        Kind::M1S6BMcmd,
        Kind::M1S6HPLC,
        Kind::M1S7ACTF,
        Kind::M1S7BMcmd,
        Kind::M1S7HPLC,
        Kind::M1modes,
        Kind::M2posFB,
        Kind::M2posactF,
        Kind::M2poscmd,
        Kind::MCM2Lcl6F,
        Kind::MCM2RB6F,
        Kind::MCM2TE6F,
        Kind::MountCmd,
        Kind::OSSAzDriveTorque,
        Kind::OSSAzEncoderAngle,
        Kind::OSSCRING6F,
        Kind::OSSCellLcl6F,
        Kind::OSSElDriveTorque,
        Kind::OSSElEncoderAngle,
        Kind::OSSGIR6F,
        Kind::OSSHardpointD,
        Kind::OSSHarpointDeltaF,
        Kind::OSSM1Lcl6F,
        Kind::OSSMirrorCovers6F,
        Kind::OSSRotDriveTorque,
        Kind::OSSRotEncoderAngle,
        Kind::OSSTopEnd6F,
        Kind::OSSTruss6F,
        Kind::PZTF,
        Kind::PZTFB,
        Kind::Pssn,
        Kind::SensorData,
        Kind::SrcSegmentGradients,
        Kind::SrcSegmentPiston,
        Kind::SrcSegmentWfeRms,
        Kind::SrcWfeRms,
        Kind::TTFB,
        Kind::TTSP,
        Kind::TTcmd,
    ]
}

/// Law: the catalog is closed and the table below enumerates it — every
/// kind appears in [`spec_all_kinds`].
pub proof fn lemma_all_kinds_complete(k: Kind)
    ensures
        spec_all_kinds().contains(k),
{
    match k {
            Kind::HPFcmd => assert(spec_all_kinds()[0] == Kind::HPFcmd),
            Kind::M1ActuatorsSegment1 => assert(spec_all_kinds()[1] == Kind::M1ActuatorsSegment1),
            Kind::M1ActuatorsSegment2 => assert(spec_all_kinds()[2] == Kind::M1ActuatorsSegment2),
            Kind::M1ActuatorsSegment3 => assert(spec_all_kinds()[3] == Kind::M1ActuatorsSegment3),
            Kind::M1ActuatorsSegment4 => assert(spec_all_kinds()[4] == Kind::M1ActuatorsSegment4),
            Kind::M1ActuatorsSegment5 => assert(spec_all_kinds()[5] == Kind::M1ActuatorsSegment5),
            Kind::M1ActuatorsSegment6 => assert(spec_all_kinds()[6] == Kind::M1ActuatorsSegment6),
            Kind::M1ActuatorsSegment7 => assert(spec_all_kinds()[7] == Kind::M1ActuatorsSegment7),
            Kind::M1CGFM => assert(spec_all_kinds()[8] == Kind::M1CGFM),
            Kind::M1HPCmd => assert(spec_all_kinds()[9] == Kind::M1HPCmd),
            Kind::M1HPLC => assert(spec_all_kinds()[10] == Kind::M1HPLC),
            Kind::M1RBMcmd => assert(spec_all_kinds()[11] == Kind::M1RBMcmd),
            Kind::M1S1ACTF => assert(spec_all_kinds()[12] == Kind::M1S1ACTF),
            Kind::M1S1BMcmd => assert(spec_all_kinds()[13] == Kind::M1S1BMcmd),
            Kind::M1S1HPLC => assert(spec_all_kinds()[14] == Kind::M1S1HPLC),
            Kind::M1S2ACTF => assert(spec_all_kinds()[15] == Kind::M1S2ACTF),
            Kind::M1S2BMcmd => assert(spec_all_kinds()[16] == Kind::M1S2BMcmd),
            Kind::M1S2HPLC => assert(spec_all_kinds()[17] == Kind::M1S2HPLC),
            Kind::M1S3ACTF => assert(spec_all_kinds()[18] == Kind::M1S3ACTF),
            Kind::M1S3BMcmd => assert(spec_all_kinds()[19] == Kind::M1S3BMcmd),
            Kind::M1S3HPLC => assert(spec_all_kinds()[20] == Kind::M1S3HPLC),
            Kind::M1S4ACTF => assert(spec_all_kinds()[21] == Kind::M1S4ACTF),
            Kind::M1S4BMcmd => assert(spec_all_kinds()[22] == Kind::M1S4BMcmd),
            Kind::M1S4HPLC => assert(spec_all_kinds()[23] == Kind::M1S4HPLC),
            Kind::M1S5ACTF => assert(spec_all_kinds()[24] == Kind::M1S5ACTF),
            Kind::M1S5BMcmd => assert(spec_all_kinds()[25] == Kind::M1S5BMcmd),
            Kind::M1S5HPLC => assert(spec_all_kinds()[26] == Kind::M1S5HPLC),
            Kind::M1S6ACTF => assert(spec_all_kinds()[27] == Kind::M1S6ACTF),
            Kind::M1S6BMcmd => assert(spec_all_kinds()[28] == Kind::M1S6BMcmd),
            Kind::M1S6HPLC => assert(spec_all_kinds()[29] == Kind::M1S6HPLC),
            Kind::M1S7ACTF => assert(spec_all_kinds()[30] == Kind::M1S7ACTF),
            Kind::M1S7BMcmd => assert(spec_all_kinds()[31] == Kind::M1S7BMcmd),
            Kind::M1S7HPLC => assert(spec_all_kinds()[32] == Kind::M1S7HPLC),
            Kind::M1modes => assert(spec_all_kinds()[33] == Kind::M1modes),
            Kind::M2posFB => assert(spec_all_kinds()[34] == Kind::M2posFB),
            Kind::M2posactF => assert(spec_all_kinds()[35] == Kind::M2posactF),
            Kind::M2poscmd => assert(spec_all_kinds()[36] == Kind::M2poscmd),
            Kind::MCM2Lcl6F => assert(spec_all_kinds()[37] == Kind::MCM2Lcl6F),
            Kind::MCM2RB6F => assert(spec_all_kinds()[38] == Kind::MCM2RB6F),
            Kind::MCM2TE6F => assert(spec_all_kinds()[39] == Kind::MCM2TE6F),
            Kind::MountCmd => assert(spec_all_kinds()[40] == Kind::MountCmd),
            Kind::OSSAzDriveTorque => assert(spec_all_kinds()[41] == Kind::OSSAzDriveTorque),
            Kind::OSSAzEncoderAngle => assert(spec_all_kinds()[42] == Kind::OSSAzEncoderAngle),
            Kind::OSSCRING6F => assert(spec_all_kinds()[43] == Kind::OSSCRING6F),
            Kind::OSSCellLcl6F => assert(spec_all_kinds()[44] == Kind::OSSCellLcl6F),
            Kind::OSSElDriveTorque => assert(spec_all_kinds()[45] == Kind::OSSElDriveTorque),
            Kind::OSSElEncoderAngle => assert(spec_all_kinds()[46] == Kind::OSSElEncoderAngle),
            Kind::OSSGIR6F => assert(spec_all_kinds()[47] == Kind::OSSGIR6F),
            Kind::OSSHardpointD => assert(spec_all_kinds()[48] == Kind::OSSHardpointD),
            Kind::OSSHarpointDeltaF => assert(spec_all_kinds()[49] == Kind::OSSHarpointDeltaF),
            Kind::OSSM1Lcl6F => assert(spec_all_kinds()[50] == Kind::OSSM1Lcl6F),
            Kind::OSSMirrorCovers6F => assert(spec_all_kinds()[51] == Kind::OSSMirrorCovers6F),
            Kind::OSSRotDriveTorque => assert(spec_all_kinds()[52] == Kind::OSSRotDriveTorque),
            Kind::OSSRotEncoderAngle => assert(spec_all_kinds()[53] == Kind::OSSRotEncoderAngle),
            Kind::OSSTopEnd6F => assert(spec_all_kinds()[54] == Kind::OSSTopEnd6F),
            Kind::OSSTruss6F => assert(spec_all_kinds()[55] == Kind::OSSTruss6F),
            Kind::PZTF => assert(spec_all_kinds()[56] == Kind::PZTF),
            Kind::PZTFB => assert(spec_all_kinds()[57] == Kind::PZTFB),
            Kind::Pssn => assert(spec_all_kinds()[58] == Kind::Pssn),
            Kind::SensorData => assert(spec_all_kinds()[59] == Kind::SensorData),
            Kind::SrcSegmentGradients => assert(spec_all_kinds()[60] == Kind::SrcSegmentGradients),
            Kind::SrcSegmentPiston => assert(spec_all_kinds()[61] == Kind::SrcSegmentPiston),
            Kind::SrcSegmentWfeRms => assert(spec_all_kinds()[62] == Kind::SrcSegmentWfeRms),
            Kind::SrcWfeRms => assert(spec_all_kinds()[63] == Kind::SrcWfeRms),
            Kind::TTFB => assert(spec_all_kinds()[64] == Kind::TTFB),
            Kind::TTSP => assert(spec_all_kinds()[65] == Kind::TTSP),
            Kind::TTcmd => assert(spec_all_kinds()[66] == Kind::TTcmd),
    }
}

/// Returns every catalog kind, in the catalog's sorted order: the
/// process-wide constant table the registry is built over.
#[verifier::rlimit(50)]
pub fn all_kinds() -> (r: Vec<Kind>)
    ensures
        r@ == spec_all_kinds(),
        r@.len() == 67,
        forall|k: Kind| r@.contains(k),
{
    let mut v: Vec<Kind> = Vec::new();
    v.push(Kind::HPFcmd);
    v.push(Kind::M1ActuatorsSegment1);
    v.push(Kind::M1ActuatorsSegment2);
    v.push(Kind::M1ActuatorsSegment3);
    v.push(Kind::M1ActuatorsSegment4);
    v.push(Kind::M1ActuatorsSegment5);
    v.push(Kind::M1ActuatorsSegment6);
    v.push(Kind::M1ActuatorsSegment7);
    v.push(Kind::M1CGFM);
    v.push(Kind::M1HPCmd);
    v.push(Kind::M1HPLC);
    v.push(Kind::M1RBMcmd);
    v.push(Kind::M1S1ACTF);
    v.push(Kind::M1S1BMcmd);
    v.push(Kind::M1S1HPLC);
    v.push(Kind::M1S2ACTF);
    v.push(Kind::M1S2BMcmd);
    v.push(Kind::M1S2HPLC);
    v.push(Kind::M1S3ACTF);
    v.push(Kind::M1S3BMcmd);
    v.push(Kind::M1S3HPLC);
    v.push(Kind::M1S4ACTF);
    v.push(Kind::M1S4BMcmd);
    v.push(Kind::M1S4HPLC);
    v.push(Kind::M1S5ACTF);
    v.push(Kind::M1S5BMcmd);
    v.push(Kind::M1S5HPLC);
    v.push(Kind::M1S6ACTF);
    v.push(Kind::M1S6BMcmd);
    v.push(Kind::M1S6HPLC);
    v.push(Kind::M1S7ACTF);
    v.push(Kind::M1S7BMcmd);
    v.push(Kind::M1S7HPLC);
    v.push(Kind::M1modes);
    v.push(Kind::M2posFB);
    v.push(Kind::M2posactF);
    v.push(Kind::M2poscmd);
    v.push(Kind::MCM2Lcl6F);
    v.push(Kind::MCM2RB6F);
    v.push(Kind::MCM2TE6F);
    v.push(Kind::MountCmd);
    v.push(Kind::OSSAzDriveTorque);
    v.push(Kind::OSSAzEncoderAngle);
    v.push(Kind::OSSCRING6F);
    v.push(Kind::OSSCellLcl6F);
    v.push(Kind::OSSElDriveTorque);
    v.push(Kind::OSSElEncoderAngle);
    v.push(Kind::OSSGIR6F);
    v.push(Kind::OSSHardpointD);
    v.push(Kind::OSSHarpointDeltaF);
    v.push(Kind::OSSM1Lcl6F);
    v.push(Kind::OSSMirrorCovers6F);
    v.push(Kind::OSSRotDriveTorque);
    v.push(Kind::OSSRotEncoderAngle);
    v.push(Kind::OSSTopEnd6F);
    v.push(Kind::OSSTruss6F);
    v.push(Kind::PZTF);
    v.push(Kind::PZTFB);
    v.push(Kind::Pssn);
    v.push(Kind::SensorData);
    v.push(Kind::SrcSegmentGradients);
    v.push(Kind::SrcSegmentPiston);
    v.push(Kind::SrcSegmentWfeRms);
    v.push(Kind::SrcWfeRms);
    v.push(Kind::TTFB);
    v.push(Kind::TTSP);
    v.push(Kind::TTcmd);
    proof {
        assert(v@ =~= spec_all_kinds());
        assert forall|k: Kind| v@.contains(k) by {
            lemma_all_kinds_complete(k);
        }
    }
    v
}

} // verus!
