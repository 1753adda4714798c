use microvm::aarch64::{
    arch_ram_ranges, chosen_initrd_range, cpu_map, cpu_node, initrd_addr, kernel_start,
    device_compatible_str, device_interrupts, generate_cpu_nodes, generate_devices_node,
    memory_node_reg, timer_interrupts, DeviceResource, FdtDeviceKind, DRAM_BASE,
};
use microvm::fdt::{FdtNode, FdtValue};

#[test]
fn arm_layout() {
    assert_eq!(arch_ram_ranges(0x4000_0000), vec![(DRAM_BASE, 0x4000_0000)]);
    assert_eq!(kernel_start(), 0x8008_0000);
    assert_eq!(initrd_addr(0x1000_0000, 0x1_0000), Some(0x8fff_0000));
    assert_eq!(initrd_addr(0x1000_0000, 0x1_0001), Some(0x8ffe_f000));
    assert_eq!(initrd_addr(0x1000, 0x2000), None);
    assert_eq!(memory_node_reg(0x1000_0000), (0x8000_0000, 0x1000_0000));
    assert_eq!(chosen_initrd_range(0x8fff_0000, 0x1_0000), (0x8fff_0000, 0x9000_0000));
}

#[test]
fn cpu_topology_map() {
    assert!(cpu_map(0).is_none());
    assert!(cpu_map(4).is_none());
    let m = cpu_map(16).unwrap();
    assert_eq!(m.len(), 16);
    let e = m[13];
    assert_eq!((e.cluster, e.sub_cluster, e.core, e.thread, e.cpu), (1, 1, 0, 1, 23));
    let e = m[6];
    assert_eq!((e.cluster, e.sub_cluster, e.core, e.thread, e.cpu), (0, 1, 1, 0, 16));
}

fn u32_prop(n: &FdtNode, i: usize) -> (&'static str, u32) {
    match n.props[i].value {
        FdtValue::U32(v) => (n.props[i].name, v),
        _ => panic!("not a u32 cell"),
    }
}

fn str_prop(n: &FdtNode, i: usize) -> (&'static str, &'static str) {
    match n.props[i].value {
        FdtValue::Str(v) => (n.props[i].name, v),
        _ => panic!("not a string"),
    }
}

#[test]
fn cpu_nodes() {
    let n = cpu_node(3, 0x8000_0003, 4);
    assert_eq!(n.path, "/cpus/cpu@80000003");
    assert_eq!(u32_prop(&n, 0), ("phandle", 13));
    assert_eq!(str_prop(&n, 1), ("device_type", "cpu"));
    assert_eq!(str_prop(&n, 2), ("compatible", "arm,arm-v8"));
    assert_eq!(str_prop(&n, 3), ("enable-method", "psci"));
    assert!(matches!(n.props[4].value, FdtValue::U64(3)));
    assert_eq!(n.props[4].name, "reg");
    let n = cpu_node(0, 0xff80_0000, 1);
    assert_eq!(n.path, "/cpus/cpu@ff800000");
    assert_eq!(n.props.len(), 4);
    assert!(matches!(n.props[3].value, FdtValue::U64(0)));
    assert_eq!(cpu_node(0, 0, 1).path, "/cpus/cpu@0");
}

#[test]
fn cpus_tree() {
    let mpidrs: Vec<u64> = (0..8).map(|i| 0x8000_0000 | i).collect();
    let t = generate_cpu_nodes(&mpidrs);
    assert_eq!(t.cpus.path, "/cpus");
    assert_eq!(u32_prop(&t.cpus, 0), ("#address-cells", 2));
    assert_eq!(u32_prop(&t.cpus, 1), ("#size-cells", 0));
    assert_eq!(t.cpu_map.unwrap().len(), 8);
    assert_eq!(t.cpu_list.len(), 8);
    assert_eq!(t.cpu_list[7].path, "/cpus/cpu@80000007");
    let t = generate_cpu_nodes(&vec![0x8000_0000, 0x8000_0001]);
    assert!(t.cpu_map.is_none());
    assert_eq!(t.cpu_list.len(), 2);
}

#[test]
fn devices_tree() {
    let devs = vec![
        DeviceResource { kind: FdtDeviceKind::Rtc, addr: 0x0901_0000, size: 0x1000, irq: 33 },
        DeviceResource { kind: FdtDeviceKind::Serial, addr: 0x0900_0000, size: 0x1000, irq: 32 },
        DeviceResource { kind: FdtDeviceKind::VirtioMmio, addr: 0x0a00_0000, size: 0x200, irq: 40 },
    ];
    let nodes = generate_devices_node(&devs);
    assert_eq!(nodes.len(), 6);
    assert_eq!(nodes[0].path, "/timer");
    assert!(matches!(nodes[0].props[1].value, FdtValue::Empty));
    assert_eq!(nodes[1].path, "/apb-pclk");
    assert_eq!(u32_prop(&nodes[1], 3), ("clock-frequency", 24_000_000));
    assert_eq!(str_prop(&nodes[2], 1), ("method", "hvc"));
    assert_eq!(nodes[3].path, "/virtio_mmio@a000000");
    assert_eq!(u32_prop(&nodes[3], 1), ("interrupt-parent", 2));
    assert_eq!(nodes[4].path, "/uart@9000000");
    assert_eq!(str_prop(&nodes[4], 1), ("clock-names", "apb_pclk"));
    assert_eq!(nodes[5].path, "/pl031@9010000");
    match &nodes[5].props[3].value {
        FdtValue::Cells64(v) => assert_eq!(v, &vec![0x0901_0000, 0x1000]),
        _ => panic!("no reg"),
    }
    match &nodes[5].props[4].value {
        FdtValue::Cells32(v) => assert_eq!(v, &vec![0, 33, 4]),
        _ => panic!("no interrupts"),
    }
}

#[test]
fn device_node_cells() {
    assert_eq!(timer_interrupts(), vec![1, 13, 4, 1, 14, 4, 1, 11, 4, 1, 10, 4]);
    assert_eq!(device_interrupts(FdtDeviceKind::Rtc, 33), vec![0, 33, 4]);
    assert_eq!(device_interrupts(FdtDeviceKind::Serial, 32), vec![0, 32, 1]);
    assert_eq!(device_interrupts(FdtDeviceKind::VirtioMmio, 40), vec![0, 40, 1]);
    assert_eq!(device_compatible_str(FdtDeviceKind::Rtc), "arm,pl031\0arm,primecell\0");
    assert_eq!(device_compatible_str(FdtDeviceKind::VirtioMmio), "virtio,mmio");
}
