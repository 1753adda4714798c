//! Guest layout of the ARM64 machine: RAM from `DRAM_BASE`, the kernel,
//! initrd and device tree placed in it, and the CPU topology that the device
//! tree describes.

use vstd::prelude::*;

use crate::fdt::{
    hex_spec, prop_cells32, prop_cells64, prop_empty, prop_str, prop_u32, prop_u64, push_hex,
    FdtNode, FdtProperty, FdtValue,
};

verus! {

/// Start of guest RAM.
pub const DRAM_BASE: u64 = 0x8000_0000;

/// Offset of the kernel image from the start of RAM.
pub const KERNEL_TEXT_OFFSET: u64 = 0x8_0000;

/// Page size used to align the initrd.
pub const PAGE_SIZE: u64 = 0x1000;

/// First phandle of the CPU nodes.
pub const CPU_PHANDLE_START: u32 = 10;

/// The single RAM range `(base, size)` of a guest with `mem_size` bytes.
pub fn arch_ram_ranges(mem_size: u64) -> (r: Vec<(u64, u64)>)
    requires
        DRAM_BASE + mem_size <= u64::MAX,
    ensures
        r@ == seq![(DRAM_BASE, mem_size)],
{
    let mut ranges: Vec<(u64, u64)> = Vec::new();
    ranges.push((DRAM_BASE, mem_size));
    proof {
        assert(ranges@ =~= seq![(DRAM_BASE, mem_size)]);
    }
    ranges
}

/// Where the kernel is loaded.
pub fn kernel_start() -> (r: u64)
    ensures
        r == DRAM_BASE + KERNEL_TEXT_OFFSET,
{
    DRAM_BASE + KERNEL_TEXT_OFFSET
}

/// Where an initrd of `size` bytes goes: at the end of RAM, its start
/// rounded down to a page; `None` where it is larger than RAM.
pub fn initrd_addr(mem_size: u64, size: u64) -> (r: Option<u64>)
    requires
        DRAM_BASE + mem_size <= u64::MAX,
    ensures
        r is None <==> size > mem_size,
        r matches Some(a) ==> a == (DRAM_BASE + mem_size - size) - (DRAM_BASE + mem_size - size)
            % PAGE_SIZE as int,
{
    if size > mem_size {
        None
    } else {
        let top = DRAM_BASE + mem_size - size;
        Some(top - top % PAGE_SIZE)
    }
}

/// The `reg` of the `/memory` node: base and size of RAM.
pub fn memory_node_reg(mem_size: u64) -> (r: (u64, u64))
    ensures
        r == (DRAM_BASE, mem_size),
{
    (DRAM_BASE, mem_size)
}

/// The `linux,initrd-start` and `linux,initrd-end` of the `/chosen` node.
pub fn chosen_initrd_range(initrd_addr: u64, initrd_size: u64) -> (r: (u64, u64))
    requires
        initrd_addr + initrd_size <= u64::MAX,
    ensures
        r == (initrd_addr, (initrd_addr + initrd_size) as u64),
{
    (initrd_addr, initrd_addr + initrd_size)
}

/// The place of one vCPU in the `cpu-map`: cluster, sub-cluster, core and
/// thread, and the CPU number it refers to.
#[derive(Clone, Copy, Debug, PartialEq, Eq, Structural)]
pub struct CpuMapEntry {
    pub cluster: u8,
    pub sub_cluster: u8,
    pub core: u8,
    pub thread: u8,
    pub cpu: u32,
}

/// Entry `k` of the map: eight vCPUs per cluster, two sub-clusters of two
/// cores of two threads each.
pub open spec fn cpu_map_entry(k: int) -> CpuMapEntry {
    CpuMapEntry {
        cluster: (k / 8) as u8,
        sub_cluster: ((k / 4) % 2) as u8,
        core: ((k / 2) % 2) as u8,
        thread: (k % 2) as u8,
        cpu: (k + CPU_PHANDLE_START) as u32,
    }
}

/// The `cpu-map` of `max_cpus` vCPUs, by vCPU. It is only described for a
/// positive multiple of eight vCPUs; `None` otherwise, and the device tree
/// then has no topology node.
pub fn cpu_map(max_cpus: u8) -> (r: Option<Vec<CpuMapEntry>>)
    ensures
        r is None <==> max_cpus == 0 || max_cpus % 8 != 0,
        r matches Some(v) ==> v@.len() == max_cpus && forall|k: int|
            0 <= k < max_cpus ==> #[trigger] v@[k] == cpu_map_entry(k),
{
    if max_cpus == 0 || max_cpus % 8 != 0 {
        return None;
    }
    let mut v: Vec<CpuMapEntry> = Vec::new();
    let mut k: u8 = 0;
    while k < max_cpus
        invariant
            0 <= k <= max_cpus,
            v@.len() == k,
            forall|j: int| 0 <= j < k ==> #[trigger] v@[j] == cpu_map_entry(j),
        decreases max_cpus - k,
    {
        v.push(
            CpuMapEntry {
                cluster: k / 8,
                sub_cluster: (k / 4) % 2,
                core: (k / 2) % 2,
                thread: k % 2,
                cpu: k as u32 + CPU_PHANDLE_START,
            },
        );
        k = k + 1;
    }
    Some(v)
}

/// `n` is the `/cpus` node: two address cells, no size cells.
pub open spec fn is_cpus_node(n: FdtNode) -> bool {
    &&& n.path@ == "/cpus"@
    &&& n.props@.len() == 2
    &&& prop_u32(n.props@[0], "#address-cells"@, 2)
    &&& prop_u32(n.props@[1], "#size-cells"@, 0)
}

/// `n` is the node of vCPU `index` among `max_cpus`, whose affinity
/// register reads `mpidr`: named after the register in hexadecimal, with
/// its phandle, type `cpu`, `arm,arm-v8`, PSCI as enable method where there
/// is more than one vCPU, and the affinity bits as `reg`.
pub open spec fn is_cpu_node(n: FdtNode, index: int, mpidr: u64, max_cpus: int) -> bool {
    let k = n.props@.len() - 1;
    &&& n.path@ == "/cpus/cpu@"@ + hex_spec(mpidr as nat)
    &&& n.props@.len() == if max_cpus > 1 { 5int } else { 4int }
    &&& prop_u32(n.props@[0], "phandle"@, (index + CPU_PHANDLE_START) as u32)
    &&& prop_str(n.props@[1], "device_type"@, "cpu"@)
    &&& prop_str(n.props@[2], "compatible"@, "arm,arm-v8"@)
    &&& (max_cpus > 1 ==> prop_str(n.props@[3], "enable-method"@, "psci"@))
    &&& prop_u64(n.props@[k], "reg"@, mpidr & 0x007f_ffff)
}

/// The `/cpus` node.
pub fn cpus_node() -> (r: FdtNode)
    ensures
        is_cpus_node(r),
{
    let props = vec![
        FdtProperty { name: "#address-cells", value: FdtValue::U32(2) },
        FdtProperty { name: "#size-cells", value: FdtValue::U32(0) },
    ];
    FdtNode { path: "/cpus".to_owned(), props }
}

/// The node of vCPU `index` among `max_cpus`, whose affinity register reads `mpidr`.
pub fn cpu_node(index: u8, mpidr: u64, max_cpus: u8) -> (r: FdtNode)
    ensures
        is_cpu_node(r, index as int, mpidr, max_cpus as int),
{
    let mut path = "/cpus/cpu@".to_owned();
    push_hex(&mut path, mpidr);
    let mut props: Vec<FdtProperty> = Vec::new();
    props.push(FdtProperty { name: "phandle", value: FdtValue::U32(index as u32 + CPU_PHANDLE_START) });
    props.push(FdtProperty { name: "device_type", value: FdtValue::Str("cpu") });
    props.push(FdtProperty { name: "compatible", value: FdtValue::Str("arm,arm-v8") });
    if max_cpus > 1 {
        props.push(FdtProperty { name: "enable-method", value: FdtValue::Str("psci") });
    }
    props.push(FdtProperty { name: "reg", value: FdtValue::U64(mpidr & 0x007f_ffff) });
    FdtNode { path, props }
}

/// What the device tree says of the vCPUs: the `/cpus` node, the
/// `cpu-map` where there is one, and one node per vCPU.
pub struct CpuNodes {
    pub cpus: FdtNode,
    pub cpu_map: Option<Vec<CpuMapEntry>>,
    pub cpu_list: Vec<FdtNode>,
}

/// The vCPU nodes of a machine whose vCPU `i` has affinity register `mpidrs[i]`.
pub fn generate_cpu_nodes(mpidrs: &Vec<u64>) -> (r: CpuNodes)
    requires
        mpidrs@.len() <= u8::MAX,
    ensures
        is_cpus_node(r.cpus),
        r.cpu_map is None <==> mpidrs@.len() == 0 || mpidrs@.len() % 8 != 0,
        r.cpu_map matches Some(v) ==> v@.len() == mpidrs@.len() && forall|k: int|
            0 <= k < v@.len() ==> #[trigger] v@[k] == cpu_map_entry(k),
        r.cpu_list@.len() == mpidrs@.len(),
        forall|i: int|
            0 <= i < mpidrs@.len() ==> is_cpu_node(
                #[trigger] r.cpu_list@[i],
                i,
                mpidrs@[i],
                mpidrs@.len() as int,
            ),
{
    let max_cpus = mpidrs.len() as u8;
    let mut cpu_list: Vec<FdtNode> = Vec::new();
    let mut i: u8 = 0;
    while i < max_cpus
        invariant
            max_cpus == mpidrs@.len(),
            0 <= i <= max_cpus,
            cpu_list@.len() == i,
            forall|j: int|
                0 <= j < i ==> is_cpu_node(
                    #[trigger] cpu_list@[j],
                    j,
                    mpidrs@[j],
                    max_cpus as int,
                ),
        decreases max_cpus - i,
    {
        cpu_list.push(cpu_node(i, mpidrs[i as usize], max_cpus));
        i = i + 1;
    }
    CpuNodes { cpus: cpus_node(), cpu_map: cpu_map(max_cpus), cpu_list }
}

/// Interrupt type of a shared peripheral interrupt in a device-tree cell.
pub const GIC_FDT_IRQ_TYPE_SPI: u32 = 0;

/// Interrupt type of a private peripheral interrupt in a device-tree cell.
pub const GIC_FDT_IRQ_TYPE_PPI: u32 = 1;

/// Trigger flag of an edge-triggered interrupt, rising edge.
pub const IRQ_TYPE_EDGE_RISING: u32 = 1;

/// Trigger flag of a level-triggered interrupt, active high.
pub const IRQ_TYPE_LEVEL_HIGH: u32 = 4;

/// Frequency of the fixed `apb-pclk` clock.
pub const CLOCK_FREQUENCY: u32 = 24_000_000;

/// The `interrupts` of the `/timer` node: the secure, non-secure, virtual
/// and hypervisor timers, each a level-triggered private interrupt.
pub fn timer_interrupts() -> (r: Vec<u32>)
    ensures
        r@ == seq![
            GIC_FDT_IRQ_TYPE_PPI, 13u32, IRQ_TYPE_LEVEL_HIGH,
            GIC_FDT_IRQ_TYPE_PPI, 14u32, IRQ_TYPE_LEVEL_HIGH,
            GIC_FDT_IRQ_TYPE_PPI, 11u32, IRQ_TYPE_LEVEL_HIGH,
            GIC_FDT_IRQ_TYPE_PPI, 10u32, IRQ_TYPE_LEVEL_HIGH,
        ],
{
    let r = vec![
        GIC_FDT_IRQ_TYPE_PPI, 13u32, IRQ_TYPE_LEVEL_HIGH,
        GIC_FDT_IRQ_TYPE_PPI, 14u32, IRQ_TYPE_LEVEL_HIGH,
        GIC_FDT_IRQ_TYPE_PPI, 11u32, IRQ_TYPE_LEVEL_HIGH,
        GIC_FDT_IRQ_TYPE_PPI, 10u32, IRQ_TYPE_LEVEL_HIGH,
    ];
    proof {
        assert(r@ =~= seq![
            GIC_FDT_IRQ_TYPE_PPI, 13u32, IRQ_TYPE_LEVEL_HIGH,
            GIC_FDT_IRQ_TYPE_PPI, 14u32, IRQ_TYPE_LEVEL_HIGH,
            GIC_FDT_IRQ_TYPE_PPI, 11u32, IRQ_TYPE_LEVEL_HIGH,
            GIC_FDT_IRQ_TYPE_PPI, 10u32, IRQ_TYPE_LEVEL_HIGH,
        ]);
    }
    r
}

/// The kinds of device that have a node of their own.
#[derive(Clone, Copy, Debug, PartialEq, Eq, Structural)]
pub enum FdtDeviceKind {
    Serial,
    Rtc,
    VirtioMmio,
}

/// The trigger of a device's interrupt: the RTC's is level-triggered,
/// the others' edge-triggered.
pub open spec fn device_trigger(kind: FdtDeviceKind) -> u32 {
    match kind {
        FdtDeviceKind::Rtc => IRQ_TYPE_LEVEL_HIGH,
        _ => IRQ_TYPE_EDGE_RISING,
    }
}

/// The `interrupts` of the node of a device of `kind` on line `irq`.
pub fn device_interrupts(kind: FdtDeviceKind, irq: u32) -> (r: Vec<u32>)
    ensures
        r@ == seq![GIC_FDT_IRQ_TYPE_SPI, irq, device_trigger(kind)],
{
    let trigger = match kind {
        FdtDeviceKind::Rtc => IRQ_TYPE_LEVEL_HIGH,
        _ => IRQ_TYPE_EDGE_RISING,
    };
    let r = vec![GIC_FDT_IRQ_TYPE_SPI, irq, trigger];
    proof {
        assert(r@ =~= seq![GIC_FDT_IRQ_TYPE_SPI, irq, device_trigger(kind)]);
    }
    r
}

/// The `compatible` string of the node of a device of `kind`.
pub open spec fn device_compatible(kind: FdtDeviceKind) -> Seq<char> {
    match kind {
        FdtDeviceKind::Serial => "ns16550a"@,
        FdtDeviceKind::Rtc => "arm,pl031\0arm,primecell\0"@,
        FdtDeviceKind::VirtioMmio => "virtio,mmio"@,
    }
}

/// The `compatible` string of a device node.
pub fn device_compatible_str(kind: FdtDeviceKind) -> (r: &'static str)
    ensures
        r@ == device_compatible(kind),
{
    match kind {
        FdtDeviceKind::Serial => "ns16550a",
        FdtDeviceKind::Rtc => "arm,pl031\0arm,primecell\0",
        FdtDeviceKind::VirtioMmio => "virtio,mmio",
    }
}

/// Phandle of the fixed clock.
pub const CLK_PHANDLE: u32 = 1;

/// Phandle of the interrupt controller.
pub const GIC_PHANDLE: u32 = 2;

/// The timer interrupt cells of `timer_interrupts`.
pub open spec fn timer_cells() -> Seq<u32> {
    seq![
        GIC_FDT_IRQ_TYPE_PPI, 13u32, IRQ_TYPE_LEVEL_HIGH,
        GIC_FDT_IRQ_TYPE_PPI, 14u32, IRQ_TYPE_LEVEL_HIGH,
        GIC_FDT_IRQ_TYPE_PPI, 11u32, IRQ_TYPE_LEVEL_HIGH,
        GIC_FDT_IRQ_TYPE_PPI, 10u32, IRQ_TYPE_LEVEL_HIGH,
    ]
}

/// `n` is the `/timer` node: the architected timer, always on.
pub open spec fn is_timer_node(n: FdtNode) -> bool {
    &&& n.path@ == "/timer"@
    &&& n.props@.len() == 3
    &&& prop_str(n.props@[0], "compatible"@, "arm,armv8-timer"@)
    &&& prop_empty(n.props@[1], "always-on"@)
    &&& prop_cells32(n.props@[2], "interrupts"@, timer_cells())
}

/// `n` is the `/apb-pclk` node: the fixed 24 MHz clock the devices name.
pub open spec fn is_clock_node(n: FdtNode) -> bool {
    &&& n.path@ == "/apb-pclk"@
    &&& n.props@.len() == 5
    &&& prop_str(n.props@[0], "compatible"@, "fixed-clock"@)
    &&& prop_str(n.props@[1], "clock-output-names"@, "clk24mhz"@)
    &&& prop_u32(n.props@[2], "#clock-cells"@, 0)
    &&& prop_u32(n.props@[3], "clock-frequency"@, CLOCK_FREQUENCY)
    &&& prop_u32(n.props@[4], "phandle"@, CLK_PHANDLE)
}

/// `n` is the `/psci` node: PSCI 0.2 through the hypervisor call.
pub open spec fn is_psci_node(n: FdtNode) -> bool {
    &&& n.path@ == "/psci"@
    &&& n.props@.len() == 2
    &&& prop_str(n.props@[0], "compatible"@, "arm,psci-0.2"@)
    &&& prop_str(n.props@[1], "method"@, "hvc"@)
}

/// The `/timer` node.
pub fn timer_node() -> (r: FdtNode)
    ensures
        is_timer_node(r),
{
    let props = vec![
        FdtProperty { name: "compatible", value: FdtValue::Str("arm,armv8-timer") },
        FdtProperty { name: "always-on", value: FdtValue::Empty },
        FdtProperty { name: "interrupts", value: FdtValue::Cells32(timer_interrupts()) },
    ];
    FdtNode { path: "/timer".to_owned(), props }
}

/// The `/apb-pclk` node.
pub fn clock_node() -> (r: FdtNode)
    ensures
        is_clock_node(r),
{
    let props = vec![
        FdtProperty { name: "compatible", value: FdtValue::Str("fixed-clock") },
        FdtProperty { name: "clock-output-names", value: FdtValue::Str("clk24mhz") },
        FdtProperty { name: "#clock-cells", value: FdtValue::U32(0) },
        FdtProperty { name: "clock-frequency", value: FdtValue::U32(CLOCK_FREQUENCY) },
        FdtProperty { name: "phandle", value: FdtValue::U32(CLK_PHANDLE) },
    ];
    FdtNode { path: "/apb-pclk".to_owned(), props }
}

/// The `/psci` node.
pub fn psci_node() -> (r: FdtNode)
    ensures
        is_psci_node(r),
{
    let props = vec![
        FdtProperty { name: "compatible", value: FdtValue::Str("arm,psci-0.2") },
        FdtProperty { name: "method", value: FdtValue::Str("hvc") },
    ];
    FdtNode { path: "/psci".to_owned(), props }
}

/// Where a device sits: its kind, MMIO window and interrupt line.
#[derive(Clone, Copy, Debug, PartialEq, Eq, Structural)]
pub struct DeviceResource {
    pub kind: FdtDeviceKind,
    pub addr: u64,
    pub size: u64,
    pub irq: u32,
}

/// The node name prefix of a device of `kind`.
pub open spec fn device_prefix(kind: FdtDeviceKind) -> Seq<char> {
    match kind {
        FdtDeviceKind::Serial => "/uart@"@,
        FdtDeviceKind::Rtc => "/pl031@"@,
        FdtDeviceKind::VirtioMmio => "/virtio_mmio@"@,
    }
}

/// `n` is the node of device `d`: named after its address in hexadecimal,
/// with its `compatible`, its clock (serial port and RTC) or interrupt
/// parent (virtio), its MMIO window as `reg`, and its interrupt.
pub open spec fn is_device_node(n: FdtNode, d: DeviceResource) -> bool {
    let k = n.props@.len();
    &&& n.path@ == device_prefix(d.kind) + hex_spec(d.addr as nat)
    &&& prop_str(n.props@[0], "compatible"@, device_compatible(d.kind))
    &&& (d.kind != FdtDeviceKind::VirtioMmio ==> k == 5 && prop_str(
        n.props@[1],
        "clock-names"@,
        "apb_pclk"@,
    ) && prop_u32(n.props@[2], "clocks"@, CLK_PHANDLE))
    &&& (d.kind == FdtDeviceKind::VirtioMmio ==> k == 4 && prop_u32(
        n.props@[1],
        "interrupt-parent"@,
        GIC_PHANDLE,
    ))
    &&& prop_cells64(n.props@[k - 2], "reg"@, seq![d.addr, d.size])
    &&& prop_cells32(
        n.props@[k - 1],
        "interrupts"@,
        seq![GIC_FDT_IRQ_TYPE_SPI, d.irq, device_trigger(d.kind)],
    )
}

/// The node of device `d`.
pub fn device_node(d: DeviceResource) -> (r: FdtNode)
    ensures
        is_device_node(r, d),
{
    let mut path = match d.kind {
        FdtDeviceKind::Serial => "/uart@".to_owned(),
        FdtDeviceKind::Rtc => "/pl031@".to_owned(),
        FdtDeviceKind::VirtioMmio => "/virtio_mmio@".to_owned(),
    };
    push_hex(&mut path, d.addr);
    let mut props: Vec<FdtProperty> = Vec::new();
    props.push(FdtProperty { name: "compatible", value: FdtValue::Str(device_compatible_str(d.kind)) });
    match d.kind {
        FdtDeviceKind::VirtioMmio => {
            props.push(FdtProperty { name: "interrupt-parent", value: FdtValue::U32(GIC_PHANDLE) });
        },
        _ => {
            props.push(FdtProperty { name: "clock-names", value: FdtValue::Str("apb_pclk") });
            props.push(FdtProperty { name: "clocks", value: FdtValue::U32(CLK_PHANDLE) });
        },
    }
    let reg = vec![d.addr, d.size];
    proof {
        assert(reg@ =~= seq![d.addr, d.size]);
    }
    props.push(FdtProperty { name: "reg", value: FdtValue::Cells64(reg) });
    props.push(FdtProperty { name: "interrupts", value: FdtValue::Cells32(device_interrupts(d.kind, d.irq)) });
    FdtNode { path, props }
}

/// The device nodes of a machine: the timer, the clock and PSCI, then one
/// node per device, the devices taken last to first.
pub fn generate_devices_node(devices: &Vec<DeviceResource>) -> (r: Vec<FdtNode>)
    ensures
        r@.len() == 3 + devices@.len(),
        is_timer_node(r@[0]),
        is_clock_node(r@[1]),
        is_psci_node(r@[2]),
        forall|j: int|
            0 <= j < devices@.len() ==> is_device_node(
                #[trigger] r@[3 + j],
                devices@[devices@.len() - 1 - j],
            ),
{
    let mut out: Vec<FdtNode> = Vec::new();
    out.push(timer_node());
    out.push(clock_node());
    out.push(psci_node());
    let n = devices.len();
    let mut j: usize = 0;
    while j < n
        invariant
            n == devices@.len(),
            0 <= j <= n,
            out@.len() == 3 + j,
            is_timer_node(out@[0]),
            is_clock_node(out@[1]),
            is_psci_node(out@[2]),
            forall|k: int|
                0 <= k < j ==> is_device_node(#[trigger] out@[3 + k], devices@[n - 1 - k]),
        decreases n - j,
    {
        out.push(device_node(devices[n - 1 - j]));
        j = j + 1;
    }
    out
}

} // verus!
