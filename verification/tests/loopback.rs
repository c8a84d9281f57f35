use stm32_eth::sim_rx_deliver;
use stm32_eth::sim_tx_collect;
use stm32_eth::DmaEngine;
use stm32_eth::RxRing;
use stm32_eth::RxRingEntry;
use stm32_eth::TxRing;
use stm32_eth::TxRingEntry;

fn rings(n: usize) -> (TxRing, RxRing, DmaEngine) {
    let mut tx_entries = Vec::new();
    let mut rx_entries = Vec::new();
    for _ in 0..n {
        tx_entries.push(TxRingEntry::new());
        rx_entries.push(RxRingEntry::new());
    }
    let tx_ring = TxRing::new(tx_entries);
    let rx_ring = RxRing::new(rx_entries);
    let mut dma = DmaEngine::new();
    tx_ring.start(&mut dma);
    rx_ring.start(&mut dma);
    (tx_ring, rx_ring, dma)
}

#[test]
fn looped_back_frame_shows_exactly_the_filler_bytes() {
    let (mut tx_ring, mut rx_ring, mut dma) = rings(4);
    let payload: Vec<u8> = (0u8..100).map(|i| i.wrapping_mul(3)).collect();
    let length = payload.len();

    let sent = tx_ring.send(
        length,
        |mut buffer: Vec<u8>| {
            buffer[..length].copy_from_slice(&payload);
            (buffer, ())
        },
        &mut dma,
    );
    assert_eq!(sent, Ok(()));

    let on_wire = sim_tx_collect(&mut tx_ring, &mut dma).expect("one frame is queued");
    assert_eq!(on_wire, payload);

    assert!(sim_rx_deliver(&mut rx_ring, &mut dma, &on_wire, true, true, false));
    let packet = rx_ring.recv_next(&mut dma).expect("the loopback deposited a frame");
    assert_eq!(packet.length, length);
    assert_eq!(rx_ring.frame_to_vec(&packet), payload);
    rx_ring.release(packet, &mut dma);
}

#[test]
fn several_frames_loop_back_in_fifo_order() {
    let (mut tx_ring, mut rx_ring, mut dma) = rings(4);
    let frames: Vec<Vec<u8>> = vec![vec![5u8; 60], vec![6u8; 61], vec![7u8; 62]];

    for frame in frames.iter() {
        let length = frame.len();
        let bytes = frame.clone();
        let sent = tx_ring.send(
            length,
            move |mut buffer: Vec<u8>| {
                buffer[..length].copy_from_slice(&bytes);
                (buffer, ())
            },
            &mut dma,
        );
        assert_eq!(sent, Ok(()));
    }
    for frame in frames.iter() {
        let on_wire = sim_tx_collect(&mut tx_ring, &mut dma).expect("frames are queued in order");
        assert_eq!(&on_wire, frame);
        assert!(sim_rx_deliver(&mut rx_ring, &mut dma, &on_wire, true, true, false));
        let packet = rx_ring.recv_next(&mut dma).expect("the loopback deposited a frame");
        assert_eq!(rx_ring.frame_to_vec(&packet), *frame);
        rx_ring.release(packet, &mut dma);
    }
}
