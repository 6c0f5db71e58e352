use ssh_tunnel::{tunnel_id_string, TunnelManager};

#[test]
fn fresh_manager_is_empty() {
    let m = TunnelManager::new();
    assert_eq!(m.list().len(), 0);
    assert!(!m.status(&"tunnel-1".to_string()));
}

#[test]
fn sequential_opens_yield_distinct_monotonic_ids() {
    let mut m = TunnelManager::new();
    let mut ids: Vec<String> = Vec::new();
    for k in 0..5u16 {
        let (r, _rx) = m.register(4000 + k);
        ids.push(r.tunnel_id);
    }
    let expected = vec!["tunnel-1", "tunnel-2", "tunnel-3", "tunnel-4", "tunnel-5"];
    assert_eq!(ids, expected);
    for i in 0..ids.len() {
        for j in 0..ids.len() {
            if i != j {
                assert_ne!(ids[i], ids[j]);
            }
        }
    }
}

#[test]
fn local_port_is_recorded_at_registration() {
    let mut m = TunnelManager::new();
    let (r, _rx) = m.register(60123);
    assert_eq!(r.local_port, 60123);
}

#[test]
fn close_makes_status_false_and_absent_from_list() {
    let mut m = TunnelManager::new();
    let (r, _rx) = m.register(5000);
    assert!(m.status(&r.tunnel_id));
    assert!(m.list().contains(&r.tunnel_id));
    m.close(&r.tunnel_id).unwrap();
    assert!(!m.status(&r.tunnel_id));
    assert!(!m.list().contains(&r.tunnel_id));
}

#[test]
fn close_unknown_id_reports_not_found() {
    let mut m = TunnelManager::new();
    let (r, _rx) = m.register(5000);
    let e = m.close(&"tunnel-99".to_string()).unwrap_err();
    assert_eq!(e.code, "TUNNEL_NOT_FOUND");
    assert_eq!(e.message, "Tunnel not found: tunnel-99");
    assert!(m.status(&r.tunnel_id));
    assert_eq!(m.list(), vec!["tunnel-1".to_string()]);
}

#[test]
fn second_close_of_same_id_reports_not_found() {
    let mut m = TunnelManager::new();
    let (r, _rx) = m.register(5000);
    m.close(&r.tunnel_id).unwrap();
    let e = m.close(&r.tunnel_id).unwrap_err();
    assert_eq!(e.code, "TUNNEL_NOT_FOUND");
    let (r2, _rx2) = m.register(5001);
    assert_eq!(r2.tunnel_id, "tunnel-2");
    assert!(m.status(&r2.tunnel_id));
}

#[test]
fn closing_one_of_three_leaves_exactly_the_other_two() {
    let mut m = TunnelManager::new();
    let (r1, _rx1) = m.register(5001);
    let (r2, _rx2) = m.register(5002);
    let (r3, _rx3) = m.register(5003);
    m.close(&r2.tunnel_id).unwrap();
    let mut listed = m.list();
    listed.sort();
    let mut expected = vec![r1.tunnel_id.clone(), r3.tunnel_id.clone()];
    expected.sort();
    assert_eq!(listed, expected);
    assert!(m.status(&r1.tunnel_id));
    assert!(!m.status(&r2.tunnel_id));
    assert!(m.status(&r3.tunnel_id));
}

#[test]
fn close_fires_the_shutdown_signal_exactly_at_removal() {
    let mut m = TunnelManager::new();
    let (r, mut rx) = m.register(5000);
    assert!(rx.try_recv().is_err());
    m.close(&r.tunnel_id).unwrap();
    assert!(rx.try_recv().is_ok());
}

#[test]
fn close_all_fires_every_signal_and_keeps_the_counter() {
    let mut m = TunnelManager::new();
    let (_r1, mut rx1) = m.register(5001);
    let (_r2, mut rx2) = m.register(5002);
    m.close_all();
    assert!(rx1.try_recv().is_ok());
    assert!(rx2.try_recv().is_ok());
    assert_eq!(m.list().len(), 0);
    let (r3, _rx3) = m.register(5003);
    assert_eq!(r3.tunnel_id, "tunnel-3");
}

#[test]
fn tunnel_id_string_formats_the_counter_in_decimal() {
    assert_eq!(tunnel_id_string(0), "tunnel-0");
    assert_eq!(tunnel_id_string(1), "tunnel-1");
    assert_eq!(tunnel_id_string(9), "tunnel-9");
    assert_eq!(tunnel_id_string(10), "tunnel-10");
    assert_eq!(tunnel_id_string(987654321), "tunnel-987654321");
    assert_eq!(tunnel_id_string(u64::MAX), "tunnel-18446744073709551615");
}
