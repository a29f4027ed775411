use audiostream::ioclient::IoClientState;
use audiostream::ioserver::{IoServerController, MemoryLoader};

fn wav_s16_mono(rate: u32, samples: &[i16]) -> Vec<u8> {
    let data_len = (samples.len() * 2) as u32;
    let mut v = Vec::new();
    v.extend_from_slice(b"RIFF");
    v.extend_from_slice(&(36 + data_len).to_le_bytes());
    v.extend_from_slice(b"WAVE");
    v.extend_from_slice(b"fmt ");
    v.extend_from_slice(&16u32.to_le_bytes());
    v.extend_from_slice(&1u16.to_le_bytes());
    v.extend_from_slice(&1u16.to_le_bytes());
    v.extend_from_slice(&rate.to_le_bytes());
    v.extend_from_slice(&(rate * 2).to_le_bytes());
    v.extend_from_slice(&2u16.to_le_bytes());
    v.extend_from_slice(&16u16.to_le_bytes());
    v.extend_from_slice(b"data");
    v.extend_from_slice(&data_len.to_le_bytes());
    for s in samples {
        v.extend_from_slice(&s.to_le_bytes());
    }
    v
}

#[test]
fn concurrent_clients_all_reach_opened() {
    let client_count = 4;
    let mut loader = MemoryLoader::new();
    let mut rates = Vec::new();
    for i in 0..client_count {
        let rate = 8_000 + 1_000 * i as u32;
        rates.push(rate);
        loader.insert(format!("tone{}", i), wav_s16_mono(rate, &[1_000; 64]));
    }
    let mut controller = IoServerController::new();
    let mut server = controller.take_server().unwrap();

    let mut clients = Vec::new();
    for i in 0..client_count {
        clients.push(controller.open_stream(format!("tone{}", i)));
    }

    crossbeam::scope(|scope| {
        let worker = scope.spawn(move |_| {
            while server.serve_one(&mut loader) {}
        });
        let mut handles = Vec::new();
        for (i, mut client) in clients.into_iter().enumerate() {
            let rate = rates[i];
            handles.push(scope.spawn(move |_| {
                client.open();
                let mut polls: u64 = 0;
                loop {
                    client.poll().unwrap();
                    match client.state() {
                        IoClientState::OpenedIdle => break,
                        IoClientState::Error(kind) => panic!("client {} failed: {:?}", i, kind),
                        _ => {}
                    }
                    polls += 1;
                    assert!(polls < 500_000_000, "client {} never opened", i);
                }
                assert_eq!(client.stream.unwrap().sample_rate, rate);
            }));
        }
        for handle in handles {
            handle.join().unwrap();
        }
        drop(controller);
        worker.join().unwrap();
    })
    .unwrap();
}
