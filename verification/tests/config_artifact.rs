//! Tests of the rendered configuration artifact.

use tricore_flash::config::create_cfg;

/// The same port renders the same bytes every time.
#[test]
fn config_is_deterministic() {
    assert_eq!(create_cfg(5), create_cfg(5));
    assert_eq!(create_cfg(0), create_cfg(0));
}

/// The configuration for port 0 is byte-equal to the vendor default
/// template.
#[test]
fn config_matches_vendor_default_for_port_zero() {
    let expected = "[Main]
Signature=UDE_TARGINFO_2.0
MCUs=Controller0
Description=Triboard with TC39x B-Step (DAS)
Description1=Init TLF35584 C-Step on connect
Description2=switch off FLASH error traps
Architecture=TriCore Aurix2G
Vendor=Starter Kits (DAS)
Board=

[Controller0]
Family=TriCore
Type=TC39xB
Enabled=1
IntClock=100000
ExtClock=20000

[Controller0.Core0]
Protocol=TC2_JTAG
Enabled=1

[Controller0.Core0.LoadedAddOn]
UDEMemtool=1

[Controller0.Core0.Tc2CoreTargIntf]
PortType=DAS
CommDevSel=
MaxJtagClk=5000
DasTryStartSrv=1
DasSrvPath=servers\\udas\\udas.exe
ConnOption=Reset
DiswdtOnReset=1
ExecInitCmds=1
TargetPort=Default
CheckJtagId=1
ScanJTAG=0
Ocds1ViaPod=0
EtksArbiterMode=None
RefreshJtag=0
RefreshHarr=0
ReenableOcds=1
ReduceJtagClock=0
UseDap=0
DapMode=2PIN
SetDebugEnableAb1DisablePin=0
ResetWaitTime=500
ResetMode=Default
OpenDrainReset=0
ExecOnConnectCmds=0
ExecOnExtRstCmds=0
ResetPulseLen=10
AddResetDelay=0
ExecEmemInitOnReset=0x0
UnlockInterface=0
BootPasswd0=0x0
BootPasswd1=0x0
BootPasswd2=0x0
BootPasswd3=0x0
BootPasswd4=0x0
BootPasswd5=0x0
BootPasswd6=0x0
BootPasswd7=0x0
PasswordFile=
HandleBmiHeader=0
SetAutOkOnConnect=0
DontUseWdtSusp=0
InitCore0RamOnConnect=0
IgnoreFailedHaltAfterResetOnConnect=0
TrySystemResetAfterFailedHardwareReset=0
RunStabilityTestOnConnect=0
RunStabilityTestCycles=10
IgnoreFailedEnableOcdsOnConnect=0
UseLbistAwareConnect=0
TC4InitCore0Ram=0
EnableAutomaticCsrmStart=0
EnableAutomaticCsrmRunControl=0
MaxTry=1
UseDflashAccessFilter=1
DetectResetWhileHalted=1
UseTranslateAddr=1
DownloadToAllRams=0
HaltAfterReset=0
HaltAfterHardwareReset=0
TargetAppHandshakeMode=None
TargetAppHandshakeTimeout=100
TargetAppHandshakeParameter0=0x0
TargetAppHandshakeParameter1=0x0
TargetAppHandshakeParameter2=0x0
TargetAppHandshakeParameter3=0x0
SimioAddr=g_JtagSimioAccess
UseStmForPtm=1
ExecOnStartCmds=0
ExecOnHaltCmds=0
ExecOnHaltCmdsWhileHaltedPeriod=0
UseTriggerToBreak=1
UseTL2OnHalt=1
UseOstateStable=1
AllowJtagResetWhileRunning=1
MaxAccRetry=1
AccRetryDelay=10
DebugResetOnDisconnect=0
ReadPmcsrWhileRunning=1
IvIcacheOnHalt=1
IvPlbOnHalt=1
SuspendSlaveCores=0
FilterMemAcc=1
PtmRefClock=0
DasDllPath=das_api.dll
DasHost=
DasStopSrv=1
DasResetHelperBreakAddr=main
DasResetMode=2
DasRemoveLogFile=0
DasForwardSerNum=0
DasSrvSel=-1
DasPortType=0
DasPortSel=0
DasCmdTimeout=1000
DasWaitAfterConnect=0
DasDisconnectSrv=0
DasApiLogging=0

[Controller0.Core0.Tc2CoreTargIntf.InitScript]
; Init TLF35584 C-Step on connect
SET 0xF0036034  0x11100002
SET 0xF0001E00  0x8
SET 0xF0001E10  0x20003C04
SET 0xF0001E04  0x1
SET 0xF0001E14  0x14000000
SET 0xF0001E24  0x501
SET 0xF0001E48  0x00020000
SET 0xF003AF10  0x98000000
SET 0xF003AF14  0x10980000
SET 0xF003AF40  0x30330333
SET 0xF003AE10  0x10980000
SET 0xF003AE40  0x33333033
WAIT 5
SET 0xF0001E54  0xFFF
SET 0xF0001E60  0x17A10001
SET 0xF0001E54 0x200
WAIT 5
SET 0xF0001E10  0x21003C04
SET 0xF0001E64 0x8756
WAIT 5
SET 0xF0001E54 0x200
WAIT 5
SET 0xF0001E54 0x400
SET 0xF0001E64 0x87DE
WAIT 5
SET 0xF0001E54 0x200
WAIT 5
SET 0xF0001E54 0x400
SET 0xF0001E64 0x86AD
WAIT 5
SET 0xF0001E54 0x200
WAIT 5
SET 0xF0001E54 0x400
SET 0xF0001E64 0x8625
WAIT 5
SET 0xF0001E54 0x200
WAIT 5
SET 0xF0001E54 0x400
SET 0xF0001E64 0x8D27
WAIT 5
SET 0xF0001E54 0x200
WAIT 5
SET 0xF0001E54 0x400
SET 0xF0001E64 0x8A01
WAIT 5
SET 0xF0001E54 0x200
WAIT 5
SET 0xF0001E54 0x400
SET 0xF0001E64 0x87BE
WAIT 5
SET 0xF0001E54 0x200
WAIT 5
SET 0xF0001E54 0x400
SET 0xF0001E64 0x8668
WAIT 5
SET 0xF0001E54 0x200
WAIT 5
SET 0xF0001E54 0x400
SET 0xF0001E64 0x877D
WAIT 5
SET 0xF0001E54 0x200
WAIT 5
SET 0xF0001E54 0x400
SET 0xF0001E64 0x8795
WAIT 5
SET 0xF0001E54 0x200
WAIT 5
SET 0xF0001E54 0x400
WAIT 5

; switch off FLASH error traps
set 0xF8801104 0x10000
set 0xF8821104 0x10000
set 0xF8841104 0x10000
set 0xF8861104 0x10000
set 0xF8881104 0x10000
set 0xF88C1104 0x10000
set 0xF8040048 0xC0000000

[Controller0.Core0.Tc2CoreTargIntf.OnStartScript]

[Controller0.Core0.Tc2CoreTargIntf.OnHaltScript]

[Controller0.Core0.Tc2CoreTargIntf.Suspend]
STM0=1
STM1=1
STM2=1
STM3=1
STM4=1
STM5=1

[Controller0.PFLASH]
Enabled=1
EnableMemtoolByDefault=1

[Controller0.DF_EEPROM]
Enabled=1
EnableMemtoolByDefault=1

[Controller0.DF_UCBS]
Enabled=1
EnableMemtoolByDefault=1


[Controller0.Core0.Tc2CoreTargIntf.OnConnectScript]";
    assert_eq!(create_cfg(0), expected);
}

/// The port appears on exactly one line, as `DasPortSel=<p>`, and the key
/// occurs nowhere else in the file.
#[test]
fn config_substitutes_port_exactly_once() {
    for port in [0usize, 1, 7, 42, 65535] {
        let cfg = create_cfg(port);
        let wanted = format!("DasPortSel={}", port);
        let hits: Vec<&str> = cfg.lines().filter(|l| *l == wanted).collect();
        assert_eq!(hits.len(), 1);
        assert_eq!(cfg.matches("DasPortSel").count(), 1);
    }
}

/// Two ports give configurations that differ in exactly the `DasPortSel`
/// line and nowhere else.
#[test]
fn config_differs_only_in_port_line() {
    let a = create_cfg(3);
    let b = create_cfg(12);
    let la: Vec<&str> = a.lines().collect();
    let lb: Vec<&str> = b.lines().collect();
    assert_eq!(la.len(), lb.len());
    let mut differing: Vec<usize> = Vec::new();
    for i in 0..la.len() {
        if la[i] != lb[i] {
            differing.push(i);
        }
    }
    assert_eq!(differing.len(), 1);
    let i = differing[0];
    assert_eq!(la[i], "DasPortSel=3");
    assert_eq!(lb[i], "DasPortSel=12");
}

/// The fixed template carries the vendor-specific blocks: controller
/// identification, the DAS server path, the TLF35584 initialization script
/// and the trap switch-off, and the memtool target sections.
#[test]
fn config_carries_fixed_vendor_blocks() {
    let cfg = create_cfg(9);
    assert!(cfg.starts_with("[Main]\nSignature=UDE_TARGINFO_2.0\n"));
    assert!(cfg.contains("Architecture=TriCore Aurix2G\n"));
    assert!(cfg.contains("Vendor=Starter Kits (DAS)\n"));
    assert!(cfg.contains("Type=TC39xB\n"));
    assert!(cfg.contains("IntClock=100000\n"));
    assert!(cfg.contains("ExtClock=20000\n"));
    assert!(cfg.contains("Protocol=TC2_JTAG\n"));
    assert!(cfg.contains("UDEMemtool=1\n"));
    assert!(cfg.contains("DasSrvPath=servers\\udas\\udas.exe\n"));
    assert!(cfg.contains("[Controller0.Core0.Tc2CoreTargIntf.InitScript]\n"));
    assert!(cfg.contains("SET 0xF0036034  0x11100002\n"));
    assert!(cfg.contains("SET 0xF0001E64 0x8756\n"));
    assert!(cfg.contains("set 0xF8040048 0xC0000000\n"));
    assert!(cfg.contains("[Controller0.PFLASH]\nEnabled=1\nEnableMemtoolByDefault=1\n"));
    assert!(cfg.contains("[Controller0.DF_EEPROM]\nEnabled=1\nEnableMemtoolByDefault=1\n"));
    assert!(cfg.contains("[Controller0.DF_UCBS]\nEnabled=1\nEnableMemtoolByDefault=1\n"));
    assert!(cfg.ends_with("[Controller0.Core0.Tc2CoreTargIntf.OnConnectScript]"));
}

/// Multi-digit ports render in full, most significant digit first.
#[test]
fn config_renders_multidigit_port() {
    assert!(create_cfg(65535).contains("DasPortSel=65535\n"));
    assert!(create_cfg(100).contains("DasPortSel=100\n"));
    assert!(create_cfg(10).contains("DasPortSel=10\n"));
}
