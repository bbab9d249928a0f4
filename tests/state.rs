use smolvm::agent::{
    config_matches, host_mount_to_spec, mount_spec_to_host_mount, port_mapping_to_spec,
    port_spec_to_mapping, resource_spec_to_vm_resources, vm_resources_to_spec, HostMount,
    MountSpec, PortMapping, PortSpec, ResourceSpec, VmResources, DEFAULT_CPUS,
    DEFAULT_MEMORY_MIB,
};

#[test]
fn test_type_conversions() {
    let spec = MountSpec { source: "/host".into(), target: "/guest".into(), readonly: true };
    assert!(mount_spec_to_host_mount(&spec).unwrap().read_only);

    let spec = MountSpec { source: "/host".into(), target: "/guest".into(), readonly: false };
    assert!(!mount_spec_to_host_mount(&spec).unwrap().read_only);

    let spec = ResourceSpec { cpus: None, memory_mb: None };
    let res = resource_spec_to_vm_resources(&spec);
    assert_eq!(res.cpus, DEFAULT_CPUS);
    assert_eq!(res.mem, DEFAULT_MEMORY_MIB);
}

#[test]
fn conversions_round_trip() {
    let res = VmResources { cpus: 4, mem: 2048, network: false };
    assert_eq!(resource_spec_to_vm_resources(&vm_resources_to_spec(res)), res);
    let m = HostMount::new_writable("/src", "/dst");
    let spec = host_mount_to_spec(&m);
    assert_eq!((spec.source.as_str(), spec.target.as_str(), spec.readonly), ("/src", "/dst", false));
    let p = port_spec_to_mapping(&PortSpec { host: 8080, guest: 80 });
    assert_eq!(p, PortMapping::new(8080, 80));
    assert_eq!(port_mapping_to_spec(&p), PortSpec { host: 8080, guest: 80 });
}

#[test]
fn reconfiguration_needs_exact_match() {
    let res = VmResources { cpus: 1, mem: 256, network: false };
    let a = vec![HostMount::new("/a", "/x"), HostMount::new_writable("/b", "/y")];
    let b = vec![HostMount::new_writable("/b", "/y"), HostMount::new("/a", "/x")];
    assert!(config_matches(&a, res, &b, res));
    let c = vec![HostMount::new("/a", "/x"), HostMount::new("/b", "/y")];
    assert!(!config_matches(&a, res, &c, res));
    let more = VmResources { cpus: 2, mem: 256, network: false };
    assert!(!config_matches(&a, res, &a, more));
}
