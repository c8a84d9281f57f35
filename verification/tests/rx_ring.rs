use stm32_eth::sim_rx_deliver;
use stm32_eth::DmaEngine;
use stm32_eth::Ownership;
use stm32_eth::RunningState;
use stm32_eth::RxError;
use stm32_eth::RxRing;
use stm32_eth::RxRingEntry;
use stm32_eth::MTU;

fn fresh_ring(n: usize) -> RxRing {
    let mut entries = Vec::new();
    for _ in 0..n {
        entries.push(RxRingEntry::new());
    }
    RxRing::new(entries)
}

#[test]
fn fresh_ring_always_would_block() {
    for n in 1..6 {
        let mut ring = fresh_ring(n);
        let mut dma = DmaEngine::new();
        ring.start(&mut dma);
        for _ in 0..3 {
            match ring.recv_next(&mut dma) {
                Err(RxError::WouldBlock) => {}
                other => panic!("expected WouldBlock, got {:?}", other.map(|p| p.entry)),
            }
        }
        assert_eq!(ring.cursor, 0);
    }
}

#[test]
fn construction_arms_every_descriptor() {
    let ring = fresh_ring(4);
    for entry in ring.entries.iter() {
        assert_eq!(entry.desc.own, Ownership::Hardware);
        assert_eq!(entry.desc.frame_len, 0);
        assert!(!entry.desc.error);
        assert_eq!(entry.buffer.len(), MTU);
    }
}

#[test]
fn release_advances_the_cursor_and_revisits_entry_zero_after_n() {
    let n = 4;
    let mut ring = fresh_ring(n);
    let mut dma = DmaEngine::new();
    ring.start(&mut dma);
    for k in 0..n {
        let frame = vec![k as u8; 10 + k];
        assert!(sim_rx_deliver(&mut ring, &mut dma, &frame, true, true, false));
        let packet = ring.recv_next(&mut dma).expect("a frame was deposited");
        assert_eq!(packet.entry, k);
        assert_eq!(packet.length, 10 + k);
        assert_eq!(ring.cursor, k);
        ring.release(packet, &mut dma);
        assert_eq!(ring.entries[k].desc.own, Ownership::Hardware);
        assert_eq!(ring.cursor, (k + 1) % n);
    }
    assert_eq!(ring.cursor, 0);
}

#[test]
fn faulty_frames_are_discarded_with_the_specific_error() {
    let mut ring = fresh_ring(3);
    let mut dma = DmaEngine::new();
    ring.start(&mut dma);

    let frame = vec![0xABu8; 32];
    assert!(sim_rx_deliver(&mut ring, &mut dma, &frame, true, true, true));
    assert_eq!(ring.recv_next(&mut dma), Err(RxError::Crc));
    assert_eq!(ring.entries[0].desc.own, Ownership::Hardware);
    assert_eq!(ring.cursor, 1);

    assert!(sim_rx_deliver(&mut ring, &mut dma, &frame, true, false, false));
    assert_eq!(ring.recv_next(&mut dma), Err(RxError::Truncated));
    assert_eq!(ring.entries[1].desc.own, Ownership::Hardware);
    assert_eq!(ring.cursor, 2);

    assert!(sim_rx_deliver(&mut ring, &mut dma, &frame, true, true, false));
    let packet = ring.recv_next(&mut dma).expect("a sound frame follows the faulty ones");
    assert_eq!(packet.entry, 2);
    ring.release(packet, &mut dma);
}

#[test]
fn received_bytes_match_the_deposit() {
    let mut ring = fresh_ring(2);
    let mut dma = DmaEngine::new();
    ring.start(&mut dma);
    let frame: Vec<u8> = (0u8..64).collect();
    assert!(sim_rx_deliver(&mut ring, &mut dma, &frame, true, true, false));
    let packet = ring.recv_next(&mut dma).expect("a frame was deposited");
    assert_eq!(packet.length, 64);
    for i in 0..64 {
        assert_eq!(ring.frame_byte(&packet, i), i as u8);
    }
    assert_eq!(ring.frame_to_vec(&packet), frame);
    ring.release(packet, &mut dma);
}

#[test]
fn engine_suspends_on_a_full_ring_and_release_demand_polls() {
    let n = 2;
    let mut ring = fresh_ring(n);
    let mut dma = DmaEngine::new();
    ring.start(&mut dma);
    let frame = vec![1u8; 8];
    assert!(sim_rx_deliver(&mut ring, &mut dma, &frame, true, true, false));
    assert!(sim_rx_deliver(&mut ring, &mut dma, &frame, true, true, false));
    // every descriptor is software-owned now: the engine stalls
    assert!(!sim_rx_deliver(&mut ring, &mut dma, &frame, true, true, false));
    assert_eq!(ring.running_state(&dma), RunningState::Stopped);
    assert!(!ring.running_state(&dma).is_running());
    // consuming one frame releases a descriptor and nudges the engine
    let packet = ring.recv_next(&mut dma).expect("two frames are queued");
    ring.release(packet, &mut dma);
    assert!(ring.running_state(&dma).is_running());
    assert!(sim_rx_deliver(&mut ring, &mut dma, &frame, true, true, false));
}

#[test]
fn deliver_raises_the_interrupt_cause_and_the_handler_clears_it() {
    let mut ring = fresh_ring(2);
    let mut dma = DmaEngine::new();
    ring.start(&mut dma);
    assert!(!dma.rx_interrupt_pending);
    let frame = vec![9u8; 4];
    assert!(sim_rx_deliver(&mut ring, &mut dma, &frame, true, true, false));
    assert!(dma.rx_interrupt_pending);
    stm32_eth::eth_interrupt_handler(&mut dma);
    assert!(!dma.rx_interrupt_pending);
    assert!(!dma.tx_interrupt_pending);
}
