//! Rendering of the flasher's device-configuration artifact.
//!
//! The configuration is an INI-style text fixed verbatim from the vendor's
//! published default for the TC37xA family, adapted for a TC39x B-step board:
//! controller identification, DAS transport parameters, the TLF35584
//! regulator initialization script, and the memtool target sections.  A
//! single slot varies: the numeric DAS port selector on the `DasPortSel`
//! line.  `spec_cfg` is the byte-exact model of the rendered file and
//! `create_cfg` produces it.

use vstd::prelude::*;
use vstd::string::StringExecFns;

verus! {

/// The character that prints a single decimal digit value.
pub open spec fn digit_char(d: nat) -> char {
    if d == 0 {
        '0'
    } else if d == 1 {
        '1'
    } else if d == 2 {
        '2'
    } else if d == 3 {
        '3'
    } else if d == 4 {
        '4'
    } else if d == 5 {
        '5'
    } else if d == 6 {
        '6'
    } else if d == 7 {
        '7'
    } else if d == 8 {
        '8'
    } else {
        '9'
    }
}

/// Decimal rendering of a non-negative integer, most significant digit
/// first, with no sign, no padding and no leading zero (except for zero
/// itself).
pub open spec fn spec_digits(n: nat) -> Seq<char>
    decreases n,
{
    if n < 10 {
        seq![digit_char(n)]
    } else {
        spec_digits(n / 10) + seq![digit_char(n % 10)]
    }
}

/// The one line of the configuration that varies with the chosen DAS port.
pub open spec fn spec_port_line(port: nat) -> Seq<char> {
    "DasPortSel="@ + spec_digits(port) + "\n"@
}

/// The rendered configuration: the fixed template bytes with the port
/// selector in the single `DasPortSel` slot.
pub open spec fn spec_cfg(port: nat) -> Seq<char> {
    spec_cfg_before() + "DasPortSel="@ + spec_digits(port) + "\n"@ + spec_cfg_after()
}

/// The fixed template bytes that precede the `DasPortSel` line.
pub open spec fn spec_cfg_before() -> Seq<char> {
    "[Main]
Signature=UDE_TARGINFO_2.0
MCUs=Controller0
Description=Triboard with TC39x B-Step (DAS)
Description1=Init TLF35584 C-Step on connect
Description2=switch off FLASH error traps
Architecture=TriCore Aurix2G
Vendor=Starter Kits (DAS)
Board=

[Controller0]
Family=TriCore
Type=TC39xB
Enabled=1
IntClock=100000
ExtClock=20000

[Controller0.Core0]
Protocol=TC2_JTAG
Enabled=1

[Controller0.Core0.LoadedAddOn]
UDEMemtool=1

[Controller0.Core0.Tc2CoreTargIntf]
PortType=DAS
CommDevSel=
MaxJtagClk=5000
DasTryStartSrv=1
DasSrvPath=servers\\udas\\udas.exe
ConnOption=Reset
DiswdtOnReset=1
ExecInitCmds=1
TargetPort=Default
CheckJtagId=1
ScanJTAG=0
Ocds1ViaPod=0
EtksArbiterMode=None
RefreshJtag=0
RefreshHarr=0
ReenableOcds=1
ReduceJtagClock=0
UseDap=0
DapMode=2PIN
SetDebugEnableAb1DisablePin=0
ResetWaitTime=500
ResetMode=Default
OpenDrainReset=0
ExecOnConnectCmds=0
ExecOnExtRstCmds=0
ResetPulseLen=10
AddResetDelay=0
ExecEmemInitOnReset=0x0
UnlockInterface=0
BootPasswd0=0x0
BootPasswd1=0x0
BootPasswd2=0x0
BootPasswd3=0x0
BootPasswd4=0x0
BootPasswd5=0x0
BootPasswd6=0x0
BootPasswd7=0x0
PasswordFile=
HandleBmiHeader=0
SetAutOkOnConnect=0
DontUseWdtSusp=0
InitCore0RamOnConnect=0
IgnoreFailedHaltAfterResetOnConnect=0
TrySystemResetAfterFailedHardwareReset=0
RunStabilityTestOnConnect=0
RunStabilityTestCycles=10
IgnoreFailedEnableOcdsOnConnect=0
UseLbistAwareConnect=0
TC4InitCore0Ram=0
EnableAutomaticCsrmStart=0
EnableAutomaticCsrmRunControl=0
MaxTry=1
UseDflashAccessFilter=1
DetectResetWhileHalted=1
UseTranslateAddr=1
DownloadToAllRams=0
HaltAfterReset=0
HaltAfterHardwareReset=0
TargetAppHandshakeMode=None
TargetAppHandshakeTimeout=100
TargetAppHandshakeParameter0=0x0
TargetAppHandshakeParameter1=0x0
TargetAppHandshakeParameter2=0x0
TargetAppHandshakeParameter3=0x0
SimioAddr=g_JtagSimioAccess
UseStmForPtm=1
ExecOnStartCmds=0
ExecOnHaltCmds=0
ExecOnHaltCmdsWhileHaltedPeriod=0
UseTriggerToBreak=1
UseTL2OnHalt=1
UseOstateStable=1
AllowJtagResetWhileRunning=1
MaxAccRetry=1
AccRetryDelay=10
DebugResetOnDisconnect=0
ReadPmcsrWhileRunning=1
IvIcacheOnHalt=1
IvPlbOnHalt=1
SuspendSlaveCores=0
FilterMemAcc=1
PtmRefClock=0
DasDllPath=das_api.dll
DasHost=
DasStopSrv=1
DasResetHelperBreakAddr=main
DasResetMode=2
DasRemoveLogFile=0
DasForwardSerNum=0
DasSrvSel=-1
DasPortType=0
"@
}

/// The fixed template bytes that follow the `DasPortSel` line.
pub open spec fn spec_cfg_after() -> Seq<char> {
    "DasCmdTimeout=1000
DasWaitAfterConnect=0
DasDisconnectSrv=0
DasApiLogging=0

[Controller0.Core0.Tc2CoreTargIntf.InitScript]
; Init TLF35584 C-Step on connect
SET 0xF0036034  0x11100002
SET 0xF0001E00  0x8
SET 0xF0001E10  0x20003C04
SET 0xF0001E04  0x1
SET 0xF0001E14  0x14000000
SET 0xF0001E24  0x501
SET 0xF0001E48  0x00020000
SET 0xF003AF10  0x98000000
SET 0xF003AF14  0x10980000
SET 0xF003AF40  0x30330333
SET 0xF003AE10  0x10980000
SET 0xF003AE40  0x33333033
WAIT 5
SET 0xF0001E54  0xFFF
SET 0xF0001E60  0x17A10001
SET 0xF0001E54 0x200
WAIT 5
SET 0xF0001E10  0x21003C04
SET 0xF0001E64 0x8756
WAIT 5
SET 0xF0001E54 0x200
WAIT 5
SET 0xF0001E54 0x400
SET 0xF0001E64 0x87DE
WAIT 5
SET 0xF0001E54 0x200
WAIT 5
SET 0xF0001E54 0x400
SET 0xF0001E64 0x86AD
WAIT 5
SET 0xF0001E54 0x200
WAIT 5
SET 0xF0001E54 0x400
SET 0xF0001E64 0x8625
WAIT 5
SET 0xF0001E54 0x200
WAIT 5
SET 0xF0001E54 0x400
SET 0xF0001E64 0x8D27
WAIT 5
SET 0xF0001E54 0x200
WAIT 5
SET 0xF0001E54 0x400
SET 0xF0001E64 0x8A01
WAIT 5
SET 0xF0001E54 0x200
WAIT 5
SET 0xF0001E54 0x400
SET 0xF0001E64 0x87BE
WAIT 5
SET 0xF0001E54 0x200
WAIT 5
SET 0xF0001E54 0x400
SET 0xF0001E64 0x8668
WAIT 5
SET 0xF0001E54 0x200
WAIT 5
SET 0xF0001E54 0x400
SET 0xF0001E64 0x877D
WAIT 5
SET 0xF0001E54 0x200
WAIT 5
SET 0xF0001E54 0x400
SET 0xF0001E64 0x8795
WAIT 5
SET 0xF0001E54 0x200
WAIT 5
SET 0xF0001E54 0x400
WAIT 5

; switch off FLASH error traps
set 0xF8801104 0x10000
set 0xF8821104 0x10000
set 0xF8841104 0x10000
set 0xF8861104 0x10000
set 0xF8881104 0x10000
set 0xF88C1104 0x10000
set 0xF8040048 0xC0000000

[Controller0.Core0.Tc2CoreTargIntf.OnStartScript]

[Controller0.Core0.Tc2CoreTargIntf.OnHaltScript]

[Controller0.Core0.Tc2CoreTargIntf.Suspend]
STM0=1
STM1=1
STM2=1
STM3=1
STM4=1
STM5=1

[Controller0.PFLASH]
Enabled=1
EnableMemtoolByDefault=1

[Controller0.DF_EEPROM]
Enabled=1
EnableMemtoolByDefault=1

[Controller0.DF_UCBS]
Enabled=1
EnableMemtoolByDefault=1


[Controller0.Core0.Tc2CoreTargIntf.OnConnectScript]"@
}

/// One decimal digit as a string slice.
fn digit_str(d: usize) -> (r: &'static str)
    requires
        d < 10,
    ensures
        r@ == seq![digit_char(d as nat)],
{
    let r: &'static str = if d == 0 {
        "0"
    } else if d == 1 {
        "1"
    } else if d == 2 {
        "2"
    } else if d == 3 {
        "3"
    } else if d == 4 {
        "4"
    } else if d == 5 {
        "5"
    } else if d == 6 {
        "6"
    } else if d == 7 {
        "7"
    } else if d == 8 {
        "8"
    } else {
        "9"
    };
    proof {
        reveal_strlit("0");
        reveal_strlit("1");
        reveal_strlit("2");
        reveal_strlit("3");
        reveal_strlit("4");
        reveal_strlit("5");
        reveal_strlit("6");
        reveal_strlit("7");
        reveal_strlit("8");
        reveal_strlit("9");
        assert(r@ =~= seq![digit_char(d as nat)]);
    }
    r
}

/// Decimal rendering of a DAS port selector.
pub fn render_port(n: usize) -> (r: String)
    ensures
        r@ == spec_digits(n as nat),
    decreases n,
{
    if n < 10 {
        String::from_str(digit_str(n))
    } else {
        let mut s = render_port(n / 10);
        s.append(digit_str(n % 10));
        s
    }
}

/// Renders the device configuration for the given DAS port: the vendor
/// template byte for byte, with `udas_port` as the value of `DasPortSel`.
pub fn create_cfg(udas_port: usize) -> (r: String)
    ensures
        r@ == spec_cfg(udas_port as nat),
{
    let mut s = String::from_str("[Main]
Signature=UDE_TARGINFO_2.0
MCUs=Controller0
Description=Triboard with TC39x B-Step (DAS)
Description1=Init TLF35584 C-Step on connect
Description2=switch off FLASH error traps
Architecture=TriCore Aurix2G
Vendor=Starter Kits (DAS)
Board=

[Controller0]
Family=TriCore
Type=TC39xB
Enabled=1
IntClock=100000
ExtClock=20000

[Controller0.Core0]
Protocol=TC2_JTAG
Enabled=1

[Controller0.Core0.LoadedAddOn]
UDEMemtool=1

[Controller0.Core0.Tc2CoreTargIntf]
PortType=DAS
CommDevSel=
MaxJtagClk=5000
DasTryStartSrv=1
DasSrvPath=servers\\udas\\udas.exe
ConnOption=Reset
DiswdtOnReset=1
ExecInitCmds=1
TargetPort=Default
CheckJtagId=1
ScanJTAG=0
Ocds1ViaPod=0
EtksArbiterMode=None
RefreshJtag=0
RefreshHarr=0
ReenableOcds=1
ReduceJtagClock=0
UseDap=0
DapMode=2PIN
SetDebugEnableAb1DisablePin=0
ResetWaitTime=500
ResetMode=Default
OpenDrainReset=0
ExecOnConnectCmds=0
ExecOnExtRstCmds=0
ResetPulseLen=10
AddResetDelay=0
ExecEmemInitOnReset=0x0
UnlockInterface=0
BootPasswd0=0x0
BootPasswd1=0x0
BootPasswd2=0x0
BootPasswd3=0x0
BootPasswd4=0x0
BootPasswd5=0x0
BootPasswd6=0x0
BootPasswd7=0x0
PasswordFile=
HandleBmiHeader=0
SetAutOkOnConnect=0
DontUseWdtSusp=0
InitCore0RamOnConnect=0
IgnoreFailedHaltAfterResetOnConnect=0
TrySystemResetAfterFailedHardwareReset=0
RunStabilityTestOnConnect=0
RunStabilityTestCycles=10
IgnoreFailedEnableOcdsOnConnect=0
UseLbistAwareConnect=0
TC4InitCore0Ram=0
EnableAutomaticCsrmStart=0
EnableAutomaticCsrmRunControl=0
MaxTry=1
UseDflashAccessFilter=1
DetectResetWhileHalted=1
UseTranslateAddr=1
DownloadToAllRams=0
HaltAfterReset=0
HaltAfterHardwareReset=0
TargetAppHandshakeMode=None
TargetAppHandshakeTimeout=100
TargetAppHandshakeParameter0=0x0
TargetAppHandshakeParameter1=0x0
TargetAppHandshakeParameter2=0x0
TargetAppHandshakeParameter3=0x0
SimioAddr=g_JtagSimioAccess
UseStmForPtm=1
ExecOnStartCmds=0
ExecOnHaltCmds=0
ExecOnHaltCmdsWhileHaltedPeriod=0
UseTriggerToBreak=1
UseTL2OnHalt=1
UseOstateStable=1
AllowJtagResetWhileRunning=1
MaxAccRetry=1
AccRetryDelay=10
DebugResetOnDisconnect=0
ReadPmcsrWhileRunning=1
IvIcacheOnHalt=1
IvPlbOnHalt=1
SuspendSlaveCores=0
FilterMemAcc=1
PtmRefClock=0
DasDllPath=das_api.dll
DasHost=
DasStopSrv=1
DasResetHelperBreakAddr=main
DasResetMode=2
DasRemoveLogFile=0
DasForwardSerNum=0
DasSrvSel=-1
DasPortType=0
");
    s.append("DasPortSel=");
    let digits = render_port(udas_port);
    s.append(digits.as_str());
    s.append("\n");
    s.append("DasCmdTimeout=1000
DasWaitAfterConnect=0
DasDisconnectSrv=0
DasApiLogging=0

[Controller0.Core0.Tc2CoreTargIntf.InitScript]
; Init TLF35584 C-Step on connect
SET 0xF0036034  0x11100002
SET 0xF0001E00  0x8
SET 0xF0001E10  0x20003C04
SET 0xF0001E04  0x1
SET 0xF0001E14  0x14000000
SET 0xF0001E24  0x501
SET 0xF0001E48  0x00020000
SET 0xF003AF10  0x98000000
SET 0xF003AF14  0x10980000
SET 0xF003AF40  0x30330333
SET 0xF003AE10  0x10980000
SET 0xF003AE40  0x33333033
WAIT 5
SET 0xF0001E54  0xFFF
SET 0xF0001E60  0x17A10001
SET 0xF0001E54 0x200
WAIT 5
SET 0xF0001E10  0x21003C04
SET 0xF0001E64 0x8756
WAIT 5
SET 0xF0001E54 0x200
WAIT 5
SET 0xF0001E54 0x400
SET 0xF0001E64 0x87DE
WAIT 5
SET 0xF0001E54 0x200
WAIT 5
SET 0xF0001E54 0x400
SET 0xF0001E64 0x86AD
WAIT 5
SET 0xF0001E54 0x200
WAIT 5
SET 0xF0001E54 0x400
SET 0xF0001E64 0x8625
WAIT 5
SET 0xF0001E54 0x200
WAIT 5
SET 0xF0001E54 0x400
SET 0xF0001E64 0x8D27
WAIT 5
SET 0xF0001E54 0x200
WAIT 5
SET 0xF0001E54 0x400
SET 0xF0001E64 0x8A01
WAIT 5
SET 0xF0001E54 0x200
WAIT 5
SET 0xF0001E54 0x400
SET 0xF0001E64 0x87BE
WAIT 5
SET 0xF0001E54 0x200
WAIT 5
SET 0xF0001E54 0x400
SET 0xF0001E64 0x8668
WAIT 5
SET 0xF0001E54 0x200
WAIT 5
SET 0xF0001E54 0x400
SET 0xF0001E64 0x877D
WAIT 5
SET 0xF0001E54 0x200
WAIT 5
SET 0xF0001E54 0x400
SET 0xF0001E64 0x8795
WAIT 5
SET 0xF0001E54 0x200
WAIT 5
SET 0xF0001E54 0x400
WAIT 5

; switch off FLASH error traps
set 0xF8801104 0x10000
set 0xF8821104 0x10000
set 0xF8841104 0x10000
set 0xF8861104 0x10000
set 0xF8881104 0x10000
set 0xF88C1104 0x10000
set 0xF8040048 0xC0000000

[Controller0.Core0.Tc2CoreTargIntf.OnStartScript]

[Controller0.Core0.Tc2CoreTargIntf.OnHaltScript]

[Controller0.Core0.Tc2CoreTargIntf.Suspend]
STM0=1
STM1=1
STM2=1
STM3=1
STM4=1
STM5=1

[Controller0.PFLASH]
Enabled=1
EnableMemtoolByDefault=1

[Controller0.DF_EEPROM]
Enabled=1
EnableMemtoolByDefault=1

[Controller0.DF_UCBS]
Enabled=1
EnableMemtoolByDefault=1


[Controller0.Core0.Tc2CoreTargIntf.OnConnectScript]");
    s
}

/// A rendered port never has two different sources: decimal rendering is
/// injective.
pub proof fn lemma_digits_injective(p: nat, q: nat)
    requires
        spec_digits(p) == spec_digits(q),
    ensures
        p == q,
    decreases p,
{
    lemma_digits_len(p);
    lemma_digits_len(q);
    if p < 10 && q < 10 {
        assert(spec_digits(p)[0] == spec_digits(q)[0]);
        assert(seq![digit_char(p)][0] == digit_char(p));
        assert(seq![digit_char(q)][0] == digit_char(q));
        assert(digit_char(p) == digit_char(q));
        assert(p == q);
    } else if p >= 10 && q >= 10 {
        let a = spec_digits(p / 10);
        let b = spec_digits(q / 10);
        let x = digit_char(p % 10);
        let y = digit_char(q % 10);
        assert(spec_digits(p) == a + seq![x]);
        assert(spec_digits(q) == b + seq![y]);
        assert((a + seq![x]).last() == x);
        assert((b + seq![y]).last() == y);
        assert(x == y);
        assert(p % 10 == q % 10);
        assert((a + seq![x]).drop_last() =~= a);
        assert((b + seq![y]).drop_last() =~= b);
        assert(a == b);
        lemma_digits_injective(p / 10, q / 10);
        vstd::arithmetic::div_mod::lemma_fundamental_div_mod(p as int, 10);
        vstd::arithmetic::div_mod::lemma_fundamental_div_mod(q as int, 10);
        assert(p == q);
    } else {
        assert(false);
    }
}

/// A decimal rendering is never empty, and has at least two digits for
/// values of ten and above.
pub proof fn lemma_digits_len(n: nat)
    ensures
        spec_digits(n).len() >= 1,
        n >= 10 ==> spec_digits(n).len() >= 2,
    decreases n,
{
    if n >= 10 {
        lemma_digits_len(n / 10);
    }
}

/// Surrounding two different middles with the same prefix and suffix keeps
/// them different.
proof fn lemma_mid_distinct(a: Seq<char>, x: Seq<char>, y: Seq<char>, c: Seq<char>)
    requires
        x != y,
    ensures
        a + x + c != a + y + c,
{
    if a + x + c == a + y + c {
        assert((a + x + c).len() == a.len() + x.len() + c.len());
        assert((a + y + c).len() == a.len() + y.len() + c.len());
        assert(x.len() == y.len());
        assert forall|i: int| 0 <= i < x.len() implies x[i] == y[i] by {
            assert((a + x + c)[a.len() + i] == x[i]);
            assert((a + y + c)[a.len() + i] == y[i]);
        }
        assert(x =~= y);
    }
}

/// The configurations for two ports share every byte outside the single
/// `DasPortSel` line, which stands at a fixed offset and differs exactly
/// when the ports differ.
pub proof fn lemma_cfg_port_isolation(p: nat, q: nat)
    ensures
        spec_cfg(p) == spec_cfg_before() + spec_port_line(p) + spec_cfg_after(),
        spec_cfg(q) == spec_cfg_before() + spec_port_line(q) + spec_cfg_after(),
        spec_cfg(p).subrange(
            spec_cfg_before().len() as int,
            (spec_cfg_before().len() + spec_port_line(p).len()) as int,
        ) == spec_port_line(p),
        p != q ==> spec_port_line(p) != spec_port_line(q),
        p != q ==> spec_cfg(p) != spec_cfg(q),
{
    lemma_cfg_decompose(p);
    lemma_cfg_decompose(q);
    if p != q {
        if spec_digits(p) == spec_digits(q) {
            lemma_digits_injective(p, q);
        }
        lemma_mid_distinct("DasPortSel="@, spec_digits(p), spec_digits(q), "\n"@);
        let a = spec_cfg_before() + "DasPortSel="@;
        let c = "\n"@ + spec_cfg_after();
        assert(spec_cfg(p) =~= a + spec_digits(p) + c);
        assert(spec_cfg(q) =~= a + spec_digits(q) + c);
        lemma_mid_distinct(a, spec_digits(p), spec_digits(q), c);
    }
}

/// The rendered configuration splits into the fixed head, the port line and
/// the fixed tail, with the port line at its fixed offset.
proof fn lemma_cfg_decompose(p: nat)
    ensures
        spec_cfg(p) == spec_cfg_before() + spec_port_line(p) + spec_cfg_after(),
        spec_cfg(p).subrange(
            spec_cfg_before().len() as int,
            (spec_cfg_before().len() + spec_port_line(p).len()) as int,
        ) == spec_port_line(p),
{
    let w = spec_cfg_before() + spec_port_line(p) + spec_cfg_after();
    assert(spec_cfg(p) =~= w);
    assert(w.subrange(
        spec_cfg_before().len() as int,
        (spec_cfg_before().len() + spec_port_line(p).len()) as int,
    ) =~= spec_port_line(p));
}

} // verus!
