//! The virtual-machine control structure: field encodings, instruction
//! errors and the decoding of exit reasons.
use vstd::prelude::*;
use super::addr::Gpa;

verus! {

/// The VMCS region: revision id and abort indicator.
#[derive(Copy, Clone, Debug, PartialEq, Eq, Structural)]
pub struct Vmcs {
    pub rev_id: u32,
    pub indicator: u32,
}

impl Vmcs {
    /// A VMCS for the revision that the IA32_VMX_BASIC value `vmx_basic` reports.
    pub fn new(vmx_basic: u64) -> (r: Vmcs)
        ensures
            r.rev_id == vmx_basic as u32,
            r.indicator == 0,
    {
        Vmcs { rev_id: vmx_basic as u32, indicator: 0 }
    }

    /// The error that the VM-instruction error field `v` names; `None`
    /// when the field could not be read.
    pub fn instruction_error(v: Option<u64>) -> (r: InstructionError)
        ensures
            r == match v {
                None => InstructionError::Unknown,
                Some(x) => instruction_error_of(x),
            },
    {
        match v {
            None => InstructionError::Unknown,
            Some(x) => match x {
            1 => InstructionError::VmcallInVmxRoot,
            2 => InstructionError::VmclearWithInvAddr,
            3 => InstructionError::VmclearWithVmxon,
            4 => InstructionError::VmresumeWithNonclearVmcs,
            5 => InstructionError::VmresumeWithNonlaunchedVmcs,
            6 => InstructionError::VmresumeAfterVmxoff,
            7 => InstructionError::InvalidCs,
            8 => InstructionError::InvalidHostState,
            9 => InstructionError::VmPtrLdWithInvAddr,
            10 => InstructionError::VmPtrLdWithVmxOn,
            11 => InstructionError::VmPtrLdWithIncorrectRevId,
            12 => InstructionError::UnsupportedVmcsField,
            13 => InstructionError::WriteToRoField,
            15 => InstructionError::VmxonInVmxRoot,
            16 => InstructionError::VmEntryWithInvalidExecVmcs2,
            17 => InstructionError::VmEntryWithNonlaucnhedExecVmcs2,
            18 => InstructionError::VmEntryWithExecVmcs,
            19 => InstructionError::VmcallWithNonclearVmcs,
            20 => InstructionError::VmcallWithInvVmexitCs,
            22 => InstructionError::VmcallWithIncorrectMsegRevId,
            23 => InstructionError::VmxoffUnderDualMontiroTreatment,
            24 => InstructionError::VmcallWithInvSmmMonitor,
            25 => InstructionError::VmentryWithInvVmExecCs,
            26 => InstructionError::VmentryWithEventBlockedByMovss,
            28 => InstructionError::InvalidOperandToInveptInvvpid,
                _ => InstructionError::Unknown,
            },
        }
    }
}

/// Errors of VMX instructions.
#[derive(Copy, Clone, Debug, PartialEq, Eq, Structural)]
pub enum InstructionError {
    VmcallInVmxRoot,
    VmclearWithInvAddr,
    VmclearWithVmxon,
    VmresumeWithNonclearVmcs,
    VmresumeWithNonlaunchedVmcs,
    VmresumeAfterVmxoff,
    InvalidCs,
    InvalidHostState,
    VmPtrLdWithInvAddr,
    VmPtrLdWithVmxOn,
    VmPtrLdWithIncorrectRevId,
    UnsupportedVmcsField,
    WriteToRoField,
    VmxonInVmxRoot,
    VmEntryWithInvalidExecVmcs2,
    VmEntryWithNonlaucnhedExecVmcs2,
    VmEntryWithExecVmcs,
    VmcallWithNonclearVmcs,
    VmcallWithInvVmexitCs,
    VmcallWithIncorrectMsegRevId,
    VmxoffUnderDualMontiroTreatment,
    VmcallWithInvSmmMonitor,
    VmentryWithInvVmExecCs,
    VmentryWithEventBlockedByMovss,
    InvalidOperandToInveptInvvpid,
    Unknown,
}

/// The error with number `v`.
pub open spec fn instruction_error_of(v: u64) -> InstructionError {
    match v {
        1 => InstructionError::VmcallInVmxRoot,
        2 => InstructionError::VmclearWithInvAddr,
        3 => InstructionError::VmclearWithVmxon,
        4 => InstructionError::VmresumeWithNonclearVmcs,
        5 => InstructionError::VmresumeWithNonlaunchedVmcs,
        6 => InstructionError::VmresumeAfterVmxoff,
        7 => InstructionError::InvalidCs,
        8 => InstructionError::InvalidHostState,
        9 => InstructionError::VmPtrLdWithInvAddr,
        10 => InstructionError::VmPtrLdWithVmxOn,
        11 => InstructionError::VmPtrLdWithIncorrectRevId,
        12 => InstructionError::UnsupportedVmcsField,
        13 => InstructionError::WriteToRoField,
        15 => InstructionError::VmxonInVmxRoot,
        16 => InstructionError::VmEntryWithInvalidExecVmcs2,
        17 => InstructionError::VmEntryWithNonlaucnhedExecVmcs2,
        18 => InstructionError::VmEntryWithExecVmcs,
        19 => InstructionError::VmcallWithNonclearVmcs,
        20 => InstructionError::VmcallWithInvVmexitCs,
        22 => InstructionError::VmcallWithIncorrectMsegRevId,
        23 => InstructionError::VmxoffUnderDualMontiroTreatment,
        24 => InstructionError::VmcallWithInvSmmMonitor,
        25 => InstructionError::VmentryWithInvVmExecCs,
        26 => InstructionError::VmentryWithEventBlockedByMovss,
        28 => InstructionError::InvalidOperandToInveptInvvpid,
        _ => InstructionError::Unknown,
    }
}

/// Fields of the VMCS.
#[derive(Copy, Clone, Debug, PartialEq, Eq, Structural)]
pub enum Field {
    Vpid,
    PostedInterruptVector,
    EptpIndex,
    GuestEsSelector,
    GuestCsSelector,
    GuestSsSelector,
    GuestDsSelector,
    GuestFsSelector,
    GuestGsSelector,
    GuestLdtrSelector,
    GuestTrSelector,
    GuestInterruptStatus,
    HostEsSelector,
    HostCsSelector,
    HostSsSelector,
    HostDsSelector,
    HostFsSelector,
    HostGsSelector,
    HostTrSelector,
    IoBitmapA,
    IoBitmapAHi,
    IoBitmapB,
    IoBitmapBHi,
    MsrBitmaps,
    MsrBitmapsHi,
    VmexitMsrStoreAddr,
    VmexitMsrStoreAddrHi,
    VmexitMsrLoadAddr,
    VmexitMsrLoadAddrHi,
    VmentryMsrLoadAddr,
    VmentryMsrLoadAddrHi,
    ExecutiveVmcsPtr,
    ExecutiveVmcsPtrHi,
    TscOffset,
    TscOffsetHi,
    VirtualApicPageAddr,
    VirtualApicPageAddrHi,
    ApicAccessAddr,
    ApicAccessAddrHi,
    PostedInterruptDescAddr,
    PostedInterruptDescAddrHi,
    VmfuncCtrls,
    VmfuncCtrlsHi,
    Eptptr,
    EptptrHi,
    EoiExitBitmap0,
    EoiExitBitmap0Hi,
    EoiExitBitmap1,
    EoiExitBitmap1Hi,
    EoiExitBitmap2,
    EoiExitBitmap2Hi,
    EoiExitBitmap3,
    EoiExitBitmap3Hi,
    EptpListAddress,
    EptpListAddressHi,
    VmreadBitmapAddr,
    VmreadBitmapAddrHi,
    VmwriteBitmapAddr,
    VmwriteBitmapAddrHi,
    VeExceptionInfoAddr,
    VeExceptionInfoAddrHi,
    GuestPhysicalAddr,
    GuestPhysicalAddrHi,
    GuestLinkPointer,
    GuestLinkPointerHi,
    GuestIa32Debugctl,
    GuestIa32DebugctlHi,
    GuestIa32Pat,
    GuestIa32PatHi,
    GuestIa32Efer,
    GuestIa32EferHi,
    GuestIa32PerfGlobalCtrl,
    GuestIa32PerfGlobalCtrlHi,
    GuestIa32Pdpte0,
    GuestIa32Pdpte0Hi,
    GuestIa32Pdpte1,
    GuestIa32Pdpte1Hi,
    GuestIa32Pdpte2,
    GuestIa32Pdpte2Hi,
    GuestIa32Pdpte3,
    GuestIa32Pdpte3Hi,
    HostIa32Pat,
    HostIa32PatHi,
    HostIa32Efer,
    HostIa32EferHi,
    HostIa32PerfGlobalCtrl,
    HostIa32PerfGlobalCtrlHi,
    PinBasedExecControls,
    ProcessorBasedVmexecControls,
    ExceptionBitmap,
    PageFaultErrCodeMask,
    PageFaultErrCodeMatch,
    Cr3TargetCount,
    VmexitControls,
    VmexitMsrStoreCount,
    VmexitMsrLoadCount,
    VmentryControls,
    VmentryMsrLoadCount,
    VmentryInterruptionInfo,
    VmentryExceptionErrCode,
    VmentryInstructionLength,
    TprThreshold,
    SecondaryVmexecControls,
    PauseLoopExitingGap,
    PauseLoopExitingWindow,
    InstructionError,
    VmexitReason,
    VmexitInterruptionInfo,
    VmexitInterruptionErrCode,
    IdtVectoringInfo,
    IdtVectoringErrCode,
    VmexitInstructionLength,
    VmexitInstructionInfo,
    GuestEsLimit,
    GuestCsLimit,
    GuestSsLimit,
    GuestDsLimit,
    GuestFsLimit,
    GuestGsLimit,
    GuestLdtrLimit,
    GuestTrLimit,
    GuestGdtrLimit,
    GuestIdtrLimit,
    GuestEsAccessRights,
    GuestCsAccessRights,
    GuestSsAccessRights,
    GuestDsAccessRights,
    GuestFsAccessRights,
    GuestGsAccessRights,
    GuestLdtrAccessRights,
    GuestTrAccessRights,
    GuestInterruptibilityState,
    GuestActivityState,
    GuestSmbase,
    GuestIa32SysenterCsMsr,
    GuestPreemptionTimerValue,
    HostIa32SysenterCsMsr,
    Cr0GuestHostMask,
    Cr4GuestHostMask,
    Cr0ReadShadow,
    Cr4ReadShadow,
    Cr3Target0,
    Cr3Target1,
    Cr3Target2,
    Cr3Target3,
    VmexitQualification,
    IoRcx,
    IoRsi,
    IoRdi,
    IoRip,
    GuestLinearAddr,
    GuestCr0,
    GuestCr3,
    GuestCr4,
    GuestEsBase,
    GuestCsBase,
    GuestSsBase,
    GuestDsBase,
    GuestFsBase,
    GuestGsBase,
    GuestLdtrBase,
    GuestTrBase,
    GuestGdtrBase,
    GuestIdtrBase,
    GuestDr7,
    GuestRsp,
    GuestRip,
    GuestRflags,
    GuestPendingDbgExceptions,
    GuestIa32SysenterEspMsr,
    GuestIa32SysenterEipMsr,
    HostCr0,
    HostCr3,
    HostCr4,
    HostFsBase,
    HostGsBase,
    HostTrBase,
    HostGdtrBase,
    HostIdtrBase,
    HostIa32SysenterEspMsr,
    HostIa32SysenterEipMsr,
    HostRsp,
    HostRip,
}

impl Field {
    /// The encoding of the field.
    pub open spec fn code(self) -> u32 {
        match self {
        Field::Vpid => 0x0,
        Field::PostedInterruptVector => 0x2,
        Field::EptpIndex => 0x4,
        Field::GuestEsSelector => 0x800,
        Field::GuestCsSelector => 0x802,
        Field::GuestSsSelector => 0x804,
        Field::GuestDsSelector => 0x806,
        Field::GuestFsSelector => 0x808,
        Field::GuestGsSelector => 0x80a,
        Field::GuestLdtrSelector => 0x80c,
        Field::GuestTrSelector => 0x80e,
        Field::GuestInterruptStatus => 0x810,
        Field::HostEsSelector => 0xc00,
        Field::HostCsSelector => 0xc02,
        Field::HostSsSelector => 0xc04,
        Field::HostDsSelector => 0xc06,
        Field::HostFsSelector => 0xc08,
        Field::HostGsSelector => 0xc0a,
        Field::HostTrSelector => 0xc0c,
        Field::IoBitmapA => 0x2000,
        Field::IoBitmapAHi => 0x2001,
        Field::IoBitmapB => 0x2002,
        Field::IoBitmapBHi => 0x2003,
        Field::MsrBitmaps => 0x2004,
        Field::MsrBitmapsHi => 0x2005,
        Field::VmexitMsrStoreAddr => 0x2006,
        Field::VmexitMsrStoreAddrHi => 0x2007,
        Field::VmexitMsrLoadAddr => 0x2008,
        Field::VmexitMsrLoadAddrHi => 0x2009,
        Field::VmentryMsrLoadAddr => 0x200a,
        Field::VmentryMsrLoadAddrHi => 0x200b,
        Field::ExecutiveVmcsPtr => 0x200c,
        Field::ExecutiveVmcsPtrHi => 0x200d,
        Field::TscOffset => 0x2010,
        Field::TscOffsetHi => 0x2011,
        Field::VirtualApicPageAddr => 0x2012,
        Field::VirtualApicPageAddrHi => 0x2013,
        Field::ApicAccessAddr => 0x2014,
        Field::ApicAccessAddrHi => 0x2015,
        Field::PostedInterruptDescAddr => 0x2016,
        Field::PostedInterruptDescAddrHi => 0x2017,
        Field::VmfuncCtrls => 0x2018,
        Field::VmfuncCtrlsHi => 0x2019,
        Field::Eptptr => 0x201a,
        Field::EptptrHi => 0x201b,
        Field::EoiExitBitmap0 => 0x201c,
        Field::EoiExitBitmap0Hi => 0x201d,
        Field::EoiExitBitmap1 => 0x201e,
        Field::EoiExitBitmap1Hi => 0x201f,
        Field::EoiExitBitmap2 => 0x2020,
        Field::EoiExitBitmap2Hi => 0x2021,
        Field::EoiExitBitmap3 => 0x2022,
        Field::EoiExitBitmap3Hi => 0x2023,
        Field::EptpListAddress => 0x2024,
        Field::EptpListAddressHi => 0x2025,
        Field::VmreadBitmapAddr => 0x2026,
        Field::VmreadBitmapAddrHi => 0x2027,
        Field::VmwriteBitmapAddr => 0x2028,
        Field::VmwriteBitmapAddrHi => 0x2029,
        Field::VeExceptionInfoAddr => 0x202a,
        Field::VeExceptionInfoAddrHi => 0x202b,
        Field::GuestPhysicalAddr => 0x2400,
        Field::GuestPhysicalAddrHi => 0x2401,
        Field::GuestLinkPointer => 0x2800,
        Field::GuestLinkPointerHi => 0x2801,
        Field::GuestIa32Debugctl => 0x2802,
        Field::GuestIa32DebugctlHi => 0x2803,
        Field::GuestIa32Pat => 0x2804,
        Field::GuestIa32PatHi => 0x2805,
        Field::GuestIa32Efer => 0x2806,
        Field::GuestIa32EferHi => 0x2807,
        Field::GuestIa32PerfGlobalCtrl => 0x2808,
        Field::GuestIa32PerfGlobalCtrlHi => 0x2809,
        Field::GuestIa32Pdpte0 => 0x280a,
        Field::GuestIa32Pdpte0Hi => 0x280b,
        Field::GuestIa32Pdpte1 => 0x280c,
        Field::GuestIa32Pdpte1Hi => 0x280d,
        Field::GuestIa32Pdpte2 => 0x280e,
        Field::GuestIa32Pdpte2Hi => 0x280f,
        Field::GuestIa32Pdpte3 => 0x2810,
        Field::GuestIa32Pdpte3Hi => 0x2811,
        Field::HostIa32Pat => 0x2c00,
        Field::HostIa32PatHi => 0x2c01,
        Field::HostIa32Efer => 0x2c02,
        Field::HostIa32EferHi => 0x2c03,
        Field::HostIa32PerfGlobalCtrl => 0x2c04,
        Field::HostIa32PerfGlobalCtrlHi => 0x2c05,
        Field::PinBasedExecControls => 0x4000,
        Field::ProcessorBasedVmexecControls => 0x4002,
        Field::ExceptionBitmap => 0x4004,
        Field::PageFaultErrCodeMask => 0x4006,
        Field::PageFaultErrCodeMatch => 0x4008,
        Field::Cr3TargetCount => 0x400a,
        Field::VmexitControls => 0x400c,
        Field::VmexitMsrStoreCount => 0x400e,
        Field::VmexitMsrLoadCount => 0x4010,
        Field::VmentryControls => 0x4012,
        Field::VmentryMsrLoadCount => 0x4014,
        Field::VmentryInterruptionInfo => 0x4016,
        Field::VmentryExceptionErrCode => 0x4018,
        Field::VmentryInstructionLength => 0x401a,
        Field::TprThreshold => 0x401c,
        Field::SecondaryVmexecControls => 0x401e,
        Field::PauseLoopExitingGap => 0x4020,
        Field::PauseLoopExitingWindow => 0x4022,
        Field::InstructionError => 0x4400,
        Field::VmexitReason => 0x4402,
        Field::VmexitInterruptionInfo => 0x4404,
        Field::VmexitInterruptionErrCode => 0x4406,
        Field::IdtVectoringInfo => 0x4408,
        Field::IdtVectoringErrCode => 0x440a,
        Field::VmexitInstructionLength => 0x440c,
        Field::VmexitInstructionInfo => 0x440e,
        Field::GuestEsLimit => 0x4800,
        Field::GuestCsLimit => 0x4802,
        Field::GuestSsLimit => 0x4804,
        Field::GuestDsLimit => 0x4806,
        Field::GuestFsLimit => 0x4808,
        Field::GuestGsLimit => 0x480a,
        Field::GuestLdtrLimit => 0x480c,
        Field::GuestTrLimit => 0x480e,
        Field::GuestGdtrLimit => 0x4810,
        Field::GuestIdtrLimit => 0x4812,
        Field::GuestEsAccessRights => 0x4814,
        Field::GuestCsAccessRights => 0x4816,
        Field::GuestSsAccessRights => 0x4818,
        Field::GuestDsAccessRights => 0x481a,
        Field::GuestFsAccessRights => 0x481c,
        Field::GuestGsAccessRights => 0x481e,
        Field::GuestLdtrAccessRights => 0x4820,
        Field::GuestTrAccessRights => 0x4822,
        Field::GuestInterruptibilityState => 0x4824,
        Field::GuestActivityState => 0x4826,
        Field::GuestSmbase => 0x4828,
        Field::GuestIa32SysenterCsMsr => 0x482a,
        Field::GuestPreemptionTimerValue => 0x482e,
        Field::HostIa32SysenterCsMsr => 0x4c00,
        Field::Cr0GuestHostMask => 0x6000,
        Field::Cr4GuestHostMask => 0x6002,
        Field::Cr0ReadShadow => 0x6004,
        Field::Cr4ReadShadow => 0x6006,
        Field::Cr3Target0 => 0x6008,
        Field::Cr3Target1 => 0x600a,
        Field::Cr3Target2 => 0x600c,
        Field::Cr3Target3 => 0x600e,
        Field::VmexitQualification => 0x6400,
        Field::IoRcx => 0x6402,
        Field::IoRsi => 0x6404,
        Field::IoRdi => 0x6406,
        Field::IoRip => 0x6408,
        Field::GuestLinearAddr => 0x640a,
        Field::GuestCr0 => 0x6800,
        Field::GuestCr3 => 0x6802,
        Field::GuestCr4 => 0x6804,
        Field::GuestEsBase => 0x6806,
        Field::GuestCsBase => 0x6808,
        Field::GuestSsBase => 0x680a,
        Field::GuestDsBase => 0x680c,
        Field::GuestFsBase => 0x680e,
        Field::GuestGsBase => 0x6810,
        Field::GuestLdtrBase => 0x6812,
        Field::GuestTrBase => 0x6814,
        Field::GuestGdtrBase => 0x6816,
        Field::GuestIdtrBase => 0x6818,
        Field::GuestDr7 => 0x681a,
        Field::GuestRsp => 0x681c,
        Field::GuestRip => 0x681e,
        Field::GuestRflags => 0x6820,
        Field::GuestPendingDbgExceptions => 0x6822,
        Field::GuestIa32SysenterEspMsr => 0x6824,
        Field::GuestIa32SysenterEipMsr => 0x6826,
        Field::HostCr0 => 0x6c00,
        Field::HostCr3 => 0x6c02,
        Field::HostCr4 => 0x6c04,
        Field::HostFsBase => 0x6c06,
        Field::HostGsBase => 0x6c08,
        Field::HostTrBase => 0x6c0a,
        Field::HostGdtrBase => 0x6c0c,
        Field::HostIdtrBase => 0x6c0e,
        Field::HostIa32SysenterEspMsr => 0x6c10,
        Field::HostIa32SysenterEipMsr => 0x6c12,
        Field::HostRsp => 0x6c14,
        Field::HostRip => 0x6c16,
        }
    }

    /// The encoding of the field, as VMREAD and VMWRITE take it.
    pub fn encoding(self) -> (r: u32)
        ensures
            r == self.code(),
            r < 0x8000,
    {
        match self {
            Field::Vpid => 0x0,
            Field::PostedInterruptVector => 0x2,
            Field::EptpIndex => 0x4,
            Field::GuestEsSelector => 0x800,
            Field::GuestCsSelector => 0x802,
            Field::GuestSsSelector => 0x804,
            Field::GuestDsSelector => 0x806,
            Field::GuestFsSelector => 0x808,
            Field::GuestGsSelector => 0x80a,
            Field::GuestLdtrSelector => 0x80c,
            Field::GuestTrSelector => 0x80e,
            Field::GuestInterruptStatus => 0x810,
            Field::HostEsSelector => 0xc00,
            Field::HostCsSelector => 0xc02,
            Field::HostSsSelector => 0xc04,
            Field::HostDsSelector => 0xc06,
            Field::HostFsSelector => 0xc08,
            Field::HostGsSelector => 0xc0a,
            Field::HostTrSelector => 0xc0c,
            Field::IoBitmapA => 0x2000,
            Field::IoBitmapAHi => 0x2001,
            Field::IoBitmapB => 0x2002,
            Field::IoBitmapBHi => 0x2003,
            Field::MsrBitmaps => 0x2004,
            Field::MsrBitmapsHi => 0x2005,
            Field::VmexitMsrStoreAddr => 0x2006,
            Field::VmexitMsrStoreAddrHi => 0x2007,
            Field::VmexitMsrLoadAddr => 0x2008,
            Field::VmexitMsrLoadAddrHi => 0x2009,
            Field::VmentryMsrLoadAddr => 0x200a,
            Field::VmentryMsrLoadAddrHi => 0x200b,
            Field::ExecutiveVmcsPtr => 0x200c,
            Field::ExecutiveVmcsPtrHi => 0x200d,
            Field::TscOffset => 0x2010,
            Field::TscOffsetHi => 0x2011,
            Field::VirtualApicPageAddr => 0x2012,
            Field::VirtualApicPageAddrHi => 0x2013,
            Field::ApicAccessAddr => 0x2014,
            Field::ApicAccessAddrHi => 0x2015,
            Field::PostedInterruptDescAddr => 0x2016,
            Field::PostedInterruptDescAddrHi => 0x2017,
            Field::VmfuncCtrls => 0x2018,
            Field::VmfuncCtrlsHi => 0x2019,
            Field::Eptptr => 0x201a,
            Field::EptptrHi => 0x201b,
            Field::EoiExitBitmap0 => 0x201c,
            Field::EoiExitBitmap0Hi => 0x201d,
            Field::EoiExitBitmap1 => 0x201e,
            Field::EoiExitBitmap1Hi => 0x201f,
            Field::EoiExitBitmap2 => 0x2020,
            Field::EoiExitBitmap2Hi => 0x2021,
            Field::EoiExitBitmap3 => 0x2022,
            Field::EoiExitBitmap3Hi => 0x2023,
            Field::EptpListAddress => 0x2024,
            Field::EptpListAddressHi => 0x2025,
            Field::VmreadBitmapAddr => 0x2026,
            Field::VmreadBitmapAddrHi => 0x2027,
            Field::VmwriteBitmapAddr => 0x2028,
            Field::VmwriteBitmapAddrHi => 0x2029,
            Field::VeExceptionInfoAddr => 0x202a,
            Field::VeExceptionInfoAddrHi => 0x202b,
            Field::GuestPhysicalAddr => 0x2400,
            Field::GuestPhysicalAddrHi => 0x2401,
            Field::GuestLinkPointer => 0x2800,
            Field::GuestLinkPointerHi => 0x2801,
            Field::GuestIa32Debugctl => 0x2802,
            Field::GuestIa32DebugctlHi => 0x2803,
            Field::GuestIa32Pat => 0x2804,
            Field::GuestIa32PatHi => 0x2805,
            Field::GuestIa32Efer => 0x2806,
            Field::GuestIa32EferHi => 0x2807,
            Field::GuestIa32PerfGlobalCtrl => 0x2808,
            Field::GuestIa32PerfGlobalCtrlHi => 0x2809,
            Field::GuestIa32Pdpte0 => 0x280a,
            Field::GuestIa32Pdpte0Hi => 0x280b,
            Field::GuestIa32Pdpte1 => 0x280c,
            Field::GuestIa32Pdpte1Hi => 0x280d,
            Field::GuestIa32Pdpte2 => 0x280e,
            Field::GuestIa32Pdpte2Hi => 0x280f,
            Field::GuestIa32Pdpte3 => 0x2810,
            Field::GuestIa32Pdpte3Hi => 0x2811,
            Field::HostIa32Pat => 0x2c00,
            Field::HostIa32PatHi => 0x2c01,
            Field::HostIa32Efer => 0x2c02,
            Field::HostIa32EferHi => 0x2c03,
            Field::HostIa32PerfGlobalCtrl => 0x2c04,
            Field::HostIa32PerfGlobalCtrlHi => 0x2c05,
            Field::PinBasedExecControls => 0x4000,
            Field::ProcessorBasedVmexecControls => 0x4002,
            Field::ExceptionBitmap => 0x4004,
            Field::PageFaultErrCodeMask => 0x4006,
            Field::PageFaultErrCodeMatch => 0x4008,
            Field::Cr3TargetCount => 0x400a,
            Field::VmexitControls => 0x400c,
            Field::VmexitMsrStoreCount => 0x400e,
            Field::VmexitMsrLoadCount => 0x4010,
            Field::VmentryControls => 0x4012,
            Field::VmentryMsrLoadCount => 0x4014,
            Field::VmentryInterruptionInfo => 0x4016,
            Field::VmentryExceptionErrCode => 0x4018,
            Field::VmentryInstructionLength => 0x401a,
            Field::TprThreshold => 0x401c,
            Field::SecondaryVmexecControls => 0x401e,
            Field::PauseLoopExitingGap => 0x4020,
            Field::PauseLoopExitingWindow => 0x4022,
            Field::InstructionError => 0x4400,
            Field::VmexitReason => 0x4402,
            Field::VmexitInterruptionInfo => 0x4404,
            Field::VmexitInterruptionErrCode => 0x4406,
            Field::IdtVectoringInfo => 0x4408,
            Field::IdtVectoringErrCode => 0x440a,
            Field::VmexitInstructionLength => 0x440c,
            Field::VmexitInstructionInfo => 0x440e,
            Field::GuestEsLimit => 0x4800,
            Field::GuestCsLimit => 0x4802,
            Field::GuestSsLimit => 0x4804,
            Field::GuestDsLimit => 0x4806,
            Field::GuestFsLimit => 0x4808,
            Field::GuestGsLimit => 0x480a,
            Field::GuestLdtrLimit => 0x480c,
            Field::GuestTrLimit => 0x480e,
            Field::GuestGdtrLimit => 0x4810,
            Field::GuestIdtrLimit => 0x4812,
            Field::GuestEsAccessRights => 0x4814,
            Field::GuestCsAccessRights => 0x4816,
            Field::GuestSsAccessRights => 0x4818,
            Field::GuestDsAccessRights => 0x481a,
            Field::GuestFsAccessRights => 0x481c,
            Field::GuestGsAccessRights => 0x481e,
            Field::GuestLdtrAccessRights => 0x4820,
            Field::GuestTrAccessRights => 0x4822,
            Field::GuestInterruptibilityState => 0x4824,
            Field::GuestActivityState => 0x4826,
            Field::GuestSmbase => 0x4828,
            Field::GuestIa32SysenterCsMsr => 0x482a,
            Field::GuestPreemptionTimerValue => 0x482e,
            Field::HostIa32SysenterCsMsr => 0x4c00,
            Field::Cr0GuestHostMask => 0x6000,
            Field::Cr4GuestHostMask => 0x6002,
            Field::Cr0ReadShadow => 0x6004,
            Field::Cr4ReadShadow => 0x6006,
            Field::Cr3Target0 => 0x6008,
            Field::Cr3Target1 => 0x600a,
            Field::Cr3Target2 => 0x600c,
            Field::Cr3Target3 => 0x600e,
            Field::VmexitQualification => 0x6400,
            Field::IoRcx => 0x6402,
            Field::IoRsi => 0x6404,
            Field::IoRdi => 0x6406,
            Field::IoRip => 0x6408,
            Field::GuestLinearAddr => 0x640a,
            Field::GuestCr0 => 0x6800,
            Field::GuestCr3 => 0x6802,
            Field::GuestCr4 => 0x6804,
            Field::GuestEsBase => 0x6806,
            Field::GuestCsBase => 0x6808,
            Field::GuestSsBase => 0x680a,
            Field::GuestDsBase => 0x680c,
            Field::GuestFsBase => 0x680e,
            Field::GuestGsBase => 0x6810,
            Field::GuestLdtrBase => 0x6812,
            Field::GuestTrBase => 0x6814,
            Field::GuestGdtrBase => 0x6816,
            Field::GuestIdtrBase => 0x6818,
            Field::GuestDr7 => 0x681a,
            Field::GuestRsp => 0x681c,
            Field::GuestRip => 0x681e,
            Field::GuestRflags => 0x6820,
            Field::GuestPendingDbgExceptions => 0x6822,
            Field::GuestIa32SysenterEspMsr => 0x6824,
            Field::GuestIa32SysenterEipMsr => 0x6826,
            Field::HostCr0 => 0x6c00,
            Field::HostCr3 => 0x6c02,
            Field::HostCr4 => 0x6c04,
            Field::HostFsBase => 0x6c06,
            Field::HostGsBase => 0x6c08,
            Field::HostTrBase => 0x6c0a,
            Field::HostGdtrBase => 0x6c0c,
            Field::HostIdtrBase => 0x6c0e,
            Field::HostIa32SysenterEspMsr => 0x6c10,
            Field::HostIa32SysenterEipMsr => 0x6c12,
            Field::HostRsp => 0x6c14,
            Field::HostRip => 0x6c16,
        }
    }
}

/// Kinds of interruption.
#[derive(Copy, Clone, Debug, PartialEq, Eq, Structural)]
pub enum InterruptionType {
    ExternalInt,
    Nmi,
    HardwareException,
    PrivSoftwareException,
    SoftwareExeception,
}

/// The interruption information of an exit due to an external interrupt.
#[derive(Copy, Clone, Debug, PartialEq, Eq, Structural)]
pub struct ExternalIntInfo {
    pub host_int: u8,
    pub interruption_type: InterruptionType,
    pub error_code_valid: bool,
    pub nmi_unblocked_by_iret: bool,
}

/// Every defined bit of the EPT-violation qualification.
pub const EPT_QUALIFICATION_ALL: u64 = 0x1_ffff;

/// The qualification of an EPT violation.
#[derive(Copy, Clone, Debug, PartialEq, Eq, Structural)]
pub struct EptViolationQualification(pub u64);

/// Why a VM exit happened.
#[derive(Copy, Clone, Debug, PartialEq, Eq, Structural)]
pub enum BasicExitReason {
    ExceptionOrNmi,
    ExternalInt(Option<ExternalIntInfo>),
    TripleFault,
    InitSignal,
    StartupIpi,
    IoSmi,
    OtherSmi,
    InterruptWindow,
    TaskSwitch,
    Cpuid,
    Hlt,
    Invd,
    Invlpg,
    Rdpmc,
    Rdtsc,
    Rsm,
    Vmcall,
    Vmclear,
    Vmlaunch,
    Vmptrld,
    Vmptrst,
    Vmread,
    Vmresume,
    Vmwrite,
    Vmxoff,
    Vmxon,
    MovCr,
    MovDr,
    IoInstruction,
    Rdmsr,
    Wrmsr,
    EntfailGuestState,
    EntfailMsrLoading,
    Mwait,
    Mtf,
    Monitor,
    Pause,
    EntfailMachineChk,
    TprBelowThreshold,
    ApicAccess,
    AccessGdtrOrIdtr,
    AccessLdtrOrTr,
    EptViolation { qualification: EptViolationQualification, fault_addr: Option<Gpa> },
    EptMisconfig,
    Invept,
    Rdtscp,
    VmxPreemptTimer,
    Invvpid,
    Wbinvd,
    Xsetbv,
    Unknown,
}

/// An exit reason with how it happened.
#[derive(Copy, Clone, Debug, PartialEq, Eq, Structural)]
pub enum ExitReason {
    BasicExitReason(BasicExitReason),
    EntryFailure(BasicExitReason),
    ExitFromVmxRootOperation(BasicExitReason),
}

impl ExitReason {
    /// The reason without how it happened.
    pub fn get_basic_reason(&self) -> (r: &BasicExitReason)
        ensures
            *r == match *self {
                ExitReason::BasicExitReason(e) => e,
                ExitReason::EntryFailure(e) => e,
                ExitReason::ExitFromVmxRootOperation(e) => e,
            },
    {
        match self {
            ExitReason::BasicExitReason(e) => e,
            ExitReason::EntryFailure(e) => e,
            ExitReason::ExitFromVmxRootOperation(e) => e,
        }
    }
}

/// The kind that the type bits (10:8) of an interruption information name.
pub open spec fn interruption_type_of(t: u32) -> InterruptionType {
    if t == 0 {
        InterruptionType::ExternalInt
    } else if t == 2 {
        InterruptionType::Nmi
    } else if t == 3 {
        InterruptionType::HardwareException
    } else if t == 5 {
        InterruptionType::PrivSoftwareException
    } else {
        InterruptionType::SoftwareExeception
    }
}

/// Whether the type bits of a valid interruption information name a kind.
pub open spec fn interruption_info_ok(info: u32) -> bool {
    info & 0x8000_0000 != 0 ==> {
        let t = (info >> 8u32) & 7;
        t == 0 || t == 2 || t == 3 || t == 5 || t == 6
    }
}

/// The interruption information that `info` encodes, if it is valid.
pub open spec fn external_int_info(info: u32) -> Option<ExternalIntInfo> {
    if info & 0x8000_0000 != 0 {
        Some(
            ExternalIntInfo {
                host_int: info as u8,
                interruption_type: interruption_type_of((info >> 8u32) & 7),
                error_code_valid: info & 0x800 != 0,
                nmi_unblocked_by_iret: info & 0x1000 != 0,
            },
        )
    } else {
        None
    }
}

/// The guest physical address `v`, if it is one.
pub open spec fn gpa_of(v: u64) -> Option<Gpa> {
    if (v as usize) < 0xffff_0000_0000_0000u64 {
        Some(Gpa::from_value(v as usize))
    } else {
        None
    }
}

/// The reason that basic exit reason number `reason` names, with the
/// interruption information, exit qualification and guest physical address
/// fields that some reasons carry.
pub open spec fn basic_reason_of(reason: u64, info: u32, qualification: u64, guest_physical_addr: u64) -> BasicExitReason {
    match reason {
        0x0 => BasicExitReason::ExceptionOrNmi,
        0x1 => BasicExitReason::ExternalInt(external_int_info(info)),
        0x2 => BasicExitReason::TripleFault,
        0x3 => BasicExitReason::InitSignal,
        0x4 => BasicExitReason::StartupIpi,
        0x5 => BasicExitReason::IoSmi,
        0x6 => BasicExitReason::OtherSmi,
        0x7 => BasicExitReason::InterruptWindow,
        0x9 => BasicExitReason::TaskSwitch,
        0xa => BasicExitReason::Cpuid,
        0xc => BasicExitReason::Hlt,
        0xd => BasicExitReason::Invd,
        0xe => BasicExitReason::Invlpg,
        0xf => BasicExitReason::Rdpmc,
        0x10 => BasicExitReason::Rdtsc,
        0x11 => BasicExitReason::Rsm,
        0x12 => BasicExitReason::Vmcall,
        0x13 => BasicExitReason::Vmclear,
        0x14 => BasicExitReason::Vmlaunch,
        0x15 => BasicExitReason::Vmptrld,
        0x16 => BasicExitReason::Vmptrst,
        0x17 => BasicExitReason::Vmread,
        0x18 => BasicExitReason::Vmresume,
        0x19 => BasicExitReason::Vmwrite,
        0x1a => BasicExitReason::Vmxoff,
        0x1b => BasicExitReason::Vmxon,
        0x1c => BasicExitReason::MovCr,
        0x1d => BasicExitReason::MovDr,
        0x1e => BasicExitReason::IoInstruction,
        0x1f => BasicExitReason::Rdmsr,
        0x20 => BasicExitReason::Wrmsr,
        0x21 => BasicExitReason::EntfailGuestState,
        0x22 => BasicExitReason::EntfailMsrLoading,
        0x24 => BasicExitReason::Mwait,
        0x25 => BasicExitReason::Mtf,
        0x27 => BasicExitReason::Monitor,
        0x28 => BasicExitReason::Pause,
        0x29 => BasicExitReason::EntfailMachineChk,
        0x2b => BasicExitReason::TprBelowThreshold,
        0x2c => BasicExitReason::ApicAccess,
        0x2e => BasicExitReason::AccessGdtrOrIdtr,
        0x2f => BasicExitReason::AccessLdtrOrTr,
        0x30 => BasicExitReason::EptViolation {
            qualification: EptViolationQualification(qualification & EPT_QUALIFICATION_ALL),
            fault_addr: gpa_of(guest_physical_addr),
        },
        0x31 => BasicExitReason::EptMisconfig,
        0x32 => BasicExitReason::Invept,
        0x33 => BasicExitReason::Rdtscp,
        0x34 => BasicExitReason::VmxPreemptTimer,
        0x35 => BasicExitReason::Invvpid,
        0x36 => BasicExitReason::Wbinvd,
        0x37 => BasicExitReason::Xsetbv,
        _ => BasicExitReason::Unknown,
    }
}

/// The number that the Intel SDM's table of basic exit reasons (appendix C)
/// gives each reason; `None` for a reason this code does not know.
pub open spec fn sdm_exit_number(b: BasicExitReason) -> Option<u64> {
    match b {
        BasicExitReason::ExceptionOrNmi => Some(0),
        BasicExitReason::ExternalInt(_) => Some(1),
        BasicExitReason::TripleFault => Some(2),
        BasicExitReason::InitSignal => Some(3),
        BasicExitReason::StartupIpi => Some(4),
        BasicExitReason::IoSmi => Some(5),
        BasicExitReason::OtherSmi => Some(6),
        BasicExitReason::InterruptWindow => Some(7),
        BasicExitReason::TaskSwitch => Some(9),
        BasicExitReason::Cpuid => Some(10),
        BasicExitReason::Hlt => Some(12),
        BasicExitReason::Invd => Some(13),
        BasicExitReason::Invlpg => Some(14),
        BasicExitReason::Rdpmc => Some(15),
        BasicExitReason::Rdtsc => Some(16),
        BasicExitReason::Rsm => Some(17),
        BasicExitReason::Vmcall => Some(18),
        BasicExitReason::Vmclear => Some(19),
        BasicExitReason::Vmlaunch => Some(20),
        BasicExitReason::Vmptrld => Some(21),
        BasicExitReason::Vmptrst => Some(22),
        BasicExitReason::Vmread => Some(23),
        BasicExitReason::Vmresume => Some(24),
        BasicExitReason::Vmwrite => Some(25),
        BasicExitReason::Vmxoff => Some(26),
        BasicExitReason::Vmxon => Some(27),
        BasicExitReason::MovCr => Some(28),
        BasicExitReason::MovDr => Some(29),
        BasicExitReason::IoInstruction => Some(30),
        BasicExitReason::Rdmsr => Some(31),
        BasicExitReason::Wrmsr => Some(32),
        BasicExitReason::EntfailGuestState => Some(33),
        BasicExitReason::EntfailMsrLoading => Some(34),
        BasicExitReason::Mwait => Some(36),
        BasicExitReason::Mtf => Some(37),
        BasicExitReason::Monitor => Some(39),
        BasicExitReason::Pause => Some(40),
        BasicExitReason::EntfailMachineChk => Some(41),
        BasicExitReason::TprBelowThreshold => Some(43),
        BasicExitReason::ApicAccess => Some(44),
        BasicExitReason::AccessGdtrOrIdtr => Some(46),
        BasicExitReason::AccessLdtrOrTr => Some(47),
        BasicExitReason::EptViolation { .. } => Some(48),
        BasicExitReason::EptMisconfig => Some(49),
        BasicExitReason::Invept => Some(50),
        BasicExitReason::Rdtscp => Some(51),
        BasicExitReason::VmxPreemptTimer => Some(52),
        BasicExitReason::Invvpid => Some(53),
        BasicExitReason::Wbinvd => Some(54),
        BasicExitReason::Xsetbv => Some(55),
        BasicExitReason::Unknown => None,
    }
}

/// Decoding names the reason the SDM numbers with the decoded number: every
/// reason a number decodes to carries that number, and a number decodes to
/// `Unknown` only when no reason carries it. So no two numbers decode to the
/// same kind of reason (e.g. 31 is RDMSR and 32 is WRMSR).
pub proof fn lemma_exit_reason_numbers(reason: u64, info: u32, qualification: u64, guest_physical_addr: u64)
    ensures
        basic_reason_of(reason, info, qualification, guest_physical_addr) is Unknown
            <==> !(exists|b: BasicExitReason| #[trigger] sdm_exit_number(b) == Some(reason)),
        !(basic_reason_of(reason, info, qualification, guest_physical_addr) is Unknown)
            ==> sdm_exit_number(basic_reason_of(reason, info, qualification, guest_physical_addr))
            == Some(reason),
{
    let r = basic_reason_of(reason, info, qualification, guest_physical_addr);
    if exists|b: BasicExitReason| #[trigger] sdm_exit_number(b) == Some(reason) {
        let b = choose|b: BasicExitReason| #[trigger] sdm_exit_number(b) == Some(reason);
        assert(!(r is Unknown));
    } else {
        if !(r is Unknown) {
            assert(sdm_exit_number(r) == Some(reason));
        }
    }
}

/// The interruption information that `info` encodes, if it is valid.
fn parse_external_int_info(info: u32) -> (r: Option<ExternalIntInfo>)
    requires
        interruption_info_ok(info),
    ensures
        r == external_int_info(info),
{
    if info & 0x8000_0000 != 0 {
        let t = (info >> 8u32) & 7;
        let ty = if t == 0 {
            InterruptionType::ExternalInt
        } else if t == 2 {
            InterruptionType::Nmi
        } else if t == 3 {
            InterruptionType::HardwareException
        } else if t == 5 {
            InterruptionType::PrivSoftwareException
        } else {
            InterruptionType::SoftwareExeception
        };
        Some(
            ExternalIntInfo {
                host_int: info as u8,
                interruption_type: ty,
                error_code_valid: info & 0x800 != 0,
                nmi_unblocked_by_iret: info & 0x1000 != 0,
            },
        )
    } else {
        None
    }
}

/// Decode basic exit reason number `reason`; `info`, `qualification` and
/// `guest_physical_addr` are the VM-exit interruption information, exit
/// qualification and guest physical address fields.
pub fn parse_basic_reason(
    reason: u64,
    info: u32,
    qualification: u64,
    guest_physical_addr: u64,
) -> (r: BasicExitReason)
    requires
        reason == 1 ==> interruption_info_ok(info),
    ensures
        r == basic_reason_of(reason, info, qualification, guest_physical_addr),
        r is Unknown || sdm_exit_number(r) == Some(reason),
{
    proof {
        lemma_exit_reason_numbers(reason, info, qualification, guest_physical_addr);
    }
    match reason {
            0x0 => BasicExitReason::ExceptionOrNmi,
            0x1 => BasicExitReason::ExternalInt(parse_external_int_info(info)),
            0x2 => BasicExitReason::TripleFault,
            0x3 => BasicExitReason::InitSignal,
            0x4 => BasicExitReason::StartupIpi,
            0x5 => BasicExitReason::IoSmi,
            0x6 => BasicExitReason::OtherSmi,
            0x7 => BasicExitReason::InterruptWindow,
            0x9 => BasicExitReason::TaskSwitch,
            0xa => BasicExitReason::Cpuid,
            0xc => BasicExitReason::Hlt,
            0xd => BasicExitReason::Invd,
            0xe => BasicExitReason::Invlpg,
            0xf => BasicExitReason::Rdpmc,
            0x10 => BasicExitReason::Rdtsc,
            0x11 => BasicExitReason::Rsm,
            0x12 => BasicExitReason::Vmcall,
            0x13 => BasicExitReason::Vmclear,
            0x14 => BasicExitReason::Vmlaunch,
            0x15 => BasicExitReason::Vmptrld,
            0x16 => BasicExitReason::Vmptrst,
            0x17 => BasicExitReason::Vmread,
            0x18 => BasicExitReason::Vmresume,
            0x19 => BasicExitReason::Vmwrite,
            0x1a => BasicExitReason::Vmxoff,
            0x1b => BasicExitReason::Vmxon,
            0x1c => BasicExitReason::MovCr,
            0x1d => BasicExitReason::MovDr,
            0x1e => BasicExitReason::IoInstruction,
            0x1f => BasicExitReason::Rdmsr,
            0x20 => BasicExitReason::Wrmsr,
            0x21 => BasicExitReason::EntfailGuestState,
            0x22 => BasicExitReason::EntfailMsrLoading,
            0x24 => BasicExitReason::Mwait,
            0x25 => BasicExitReason::Mtf,
            0x27 => BasicExitReason::Monitor,
            0x28 => BasicExitReason::Pause,
            0x29 => BasicExitReason::EntfailMachineChk,
            0x2b => BasicExitReason::TprBelowThreshold,
            0x2c => BasicExitReason::ApicAccess,
            0x2e => BasicExitReason::AccessGdtrOrIdtr,
            0x2f => BasicExitReason::AccessLdtrOrTr,
            0x30 => BasicExitReason::EptViolation {
                qualification: EptViolationQualification(qualification & EPT_QUALIFICATION_ALL),
                fault_addr: Gpa::new(guest_physical_addr as usize),
            },
            0x31 => BasicExitReason::EptMisconfig,
            0x32 => BasicExitReason::Invept,
            0x33 => BasicExitReason::Rdtscp,
            0x34 => BasicExitReason::VmxPreemptTimer,
            0x35 => BasicExitReason::Invvpid,
            0x36 => BasicExitReason::Wbinvd,
            0x37 => BasicExitReason::Xsetbv,
        _ => BasicExitReason::Unknown,
    }
}

/// The VMCS that is current on this core.
#[derive(Copy, Clone, Debug)]
pub struct ActiveVmcs;

/// The exit reason that the exit reason field `reason` encodes.
pub open spec fn exit_reason_of(reason: u64, info: u32, qualification: u64, guest_physical_addr: u64) -> ExitReason {
    if reason & 0x2000_0000 != 0 {
        ExitReason::ExitFromVmxRootOperation(basic_reason_of(reason & 0xffff, info, qualification, guest_physical_addr))
    } else if reason & 0x8000_0000 != 0 {
        ExitReason::EntryFailure(basic_reason_of(reason & 0xffff, info, qualification, guest_physical_addr))
    } else {
        ExitReason::BasicExitReason(basic_reason_of(reason, info, qualification, guest_physical_addr))
    }
}

impl ActiveVmcs {
    /// Decode the exit reason field `reason`, with the fields that some
    /// reasons carry.
    pub fn exit_reason(&self, reason: u64, info: u32, qualification: u64, guest_physical_addr: u64) -> (r: ExitReason)
        requires
            reason & 0x2000_0000 != 0 || reason & 0x8000_0000 != 0 ==> (reason & 0xffff == 1 ==> interruption_info_ok(info)),
            reason & 0x2000_0000 == 0 && reason & 0x8000_0000 == 0 ==> (reason == 1 ==> interruption_info_ok(info)),
        ensures
            r == exit_reason_of(reason, info, qualification, guest_physical_addr),
    {
        if reason & 0x2000_0000 != 0 {
            ExitReason::ExitFromVmxRootOperation(parse_basic_reason(reason & 0xffff, info, qualification, guest_physical_addr))
        } else if reason & 0x8000_0000 != 0 {
            ExitReason::EntryFailure(parse_basic_reason(reason & 0xffff, info, qualification, guest_physical_addr))
        } else {
            ExitReason::BasicExitReason(parse_basic_reason(reason, info, qualification, guest_physical_addr))
        }
    }

    /// The guest instruction pointer after the exiting instruction: `rip`
    /// advanced by the instruction length `len`.
    pub fn forward_rip(&self, rip: u64, len: u64) -> (r: u64)
        requires
            rip + len <= u64::MAX,
        ensures
            r == rip + len,
    {
        rip + len
    }
}

} // verus!
