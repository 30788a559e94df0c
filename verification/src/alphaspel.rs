//! The catalogue sections of the second storefront: the path of each
//! set's listing page and the set's display name, as the shop lays
//! them out. The scraper walks these sections page by page.
use vstd::prelude::*;

verus! {

fn push_sections_a(v: &mut Vec<(String, String)>)
    ensures
        final(v)@.len() == old(v)@.len() + 40,
{
    v.push((String::from_str("/2441-10th-edition/"), String::from_str("10th Edition")));
    v.push((String::from_str("/4130-30th-anniversary-celebration/"), String::from_str("30th Anniversary Celebration")));
    v.push((String::from_str("/2149-4th-edition/"), String::from_str("4th Edition")));
    v.push((String::from_str("/4555-4th-edition-black-bordered/"), String::from_str("4th Edition: Black Bordered")));
    v.push((String::from_str("/2150-5th-edition/"), String::from_str("5th Edition")));
    v.push((String::from_str("/2556-6th-edition/"), String::from_str("6th Edition")));
    v.push((String::from_str("/2201-7th-edition/"), String::from_str("7th Edition")));
    v.push((String::from_str("/2571-8th-edition/"), String::from_str("8th Edition")));
    v.push((String::from_str("/2583-9th-edition/"), String::from_str("9th Edition")));
    v.push((String::from_str("/3612-adventures-in-the-forgotten-realms/"), String::from_str("Adventures in the Forgotten Realms")));
    v.push((String::from_str("/2331-aether-revolt/"), String::from_str("Aether Revolt")));
    v.push((String::from_str("/5112-aetherdrift/"), String::from_str("Aetherdrift")));
    v.push((String::from_str("/2174-alara-reborn/"), String::from_str("Alara Reborn")));
    v.push((String::from_str("/2145-alliances/"), String::from_str("Alliances")));
    v.push((String::from_str("/2895-alpha/"), String::from_str("Alpha")));
    v.push((String::from_str("/2369-amonkhet/"), String::from_str("Amonkhet")));
    v.push((String::from_str("/2586-amonkhet-invocations/"), String::from_str("Amonkhet Invocations")));
    v.push((String::from_str("/4133-anthologies/"), String::from_str("Anthologies")));
    v.push((String::from_str("/2631-antiquities/"), String::from_str("Antiquities")));
    v.push((String::from_str("/2062-apocalypse/"), String::from_str("Apocalypse")));
    v.push((String::from_str("/3335-arabian-nights/"), String::from_str("Arabian Nights")));
    v.push((String::from_str("/2559-archenemy/"), String::from_str("Archenemy:")));
    v.push((String::from_str("/4914-assassins-creed/"), String::from_str("Assassin's Creed")));
    v.push((String::from_str("/2165-avacyn-restored/"), String::from_str("Avacyn Restored")));
    v.push((String::from_str("/2110-battle-for-zendikar/"), String::from_str("Battle for Zendikar")));
    v.push((String::from_str("/2654-battlebond/"), String::from_str("Battlebond")));
    v.push((String::from_str("/2649-beta/"), String::from_str("Beta")));
    v.push((String::from_str("/2552-betrayers-of-kamigawa/"), String::from_str("Betrayers of Kamigawa")));
    v.push((String::from_str("/4919-bloomburrow/"), String::from_str("Bloomburrow")));
    v.push((String::from_str("/2011-born-of-the-gods/"), String::from_str("Born of the Gods")));
    v.push((String::from_str("/4853-breaking-news/"), String::from_str("Breaking News")));
    v.push((String::from_str("/2127-champions-of-kamigawa/"), String::from_str("Champions of Kamigawa")));
    v.push((String::from_str("/2225-chronicles/"), String::from_str("Chronicles")));
    v.push((String::from_str("/2095-coldsnap/"), String::from_str("Coldsnap")));
    v.push((String::from_str("/2301-commander/"), String::from_str("Commander")));
    v.push((String::from_str("/2250-commander-2013/"), String::from_str("Commander 2013")));
    v.push((String::from_str("/2270-commander-2014/"), String::from_str("Commander 2014")));
    v.push((String::from_str("/2271-commander-2015/"), String::from_str("Commander 2015")));
    v.push((String::from_str("/2342-commander-2016/"), String::from_str("Commander 2016")));
    v.push((String::from_str("/2518-commander-2017/"), String::from_str("Commander 2017")));
}

fn push_sections_b(v: &mut Vec<(String, String)>)
    ensures
        final(v)@.len() == old(v)@.len() + 40,
{
    v.push((String::from_str("/2729-commander-2018/"), String::from_str("Commander 2018")));
    v.push((String::from_str("/3101-commander-2019/"), String::from_str("Commander 2019")));
    v.push((String::from_str("/3099-commander-2020/"), String::from_str("Commander 2020")));
    v.push((String::from_str("/2429-commander-anthology/"), String::from_str("Commander Anthology")));
    v.push((String::from_str("/2661-commander-anthology-2018/"), String::from_str("Commander Anthology 2018")));
    v.push((String::from_str("/4094-commander-collection-black/"), String::from_str("Commander Collection: Black")));
    v.push((String::from_str("/4448-commander-collection-green/"), String::from_str("Commander Collection: Green")));
    v.push((String::from_str("/3273-commander-legends/"), String::from_str("Commander Legends")));
    v.push((String::from_str("/3974-commander-legends-battle-for-baldurs-gate/"), String::from_str("Commander Legends: Battle For Baldurs Gate")));
    v.push((String::from_str("/3981-commander-legends-battle-for-baldurs-gate-commander-decks/"), String::from_str("Commander Legends: Battle For Baldurs Gate - Commander Decks")));
    v.push((String::from_str("/4594-commander-masters/"), String::from_str("Commander Masters")));
    v.push((String::from_str("/3613-commander-adventures-in-the-forgotten-realms/"), String::from_str("Commander: Adventures in the Forgotten Realms")));
    v.push((String::from_str("/5113-commander-aetherdrift/"), String::from_str("Commander: Aetherdrift")));
    v.push((String::from_str("/4922-commander-bloomburrow/"), String::from_str("Commander: Bloomburrow")));
    v.push((String::from_str("/4033-commander-dominaria-united/"), String::from_str("Commander: Dominaria United")));
    v.push((String::from_str("/4983-commander-duskmourn/"), String::from_str("Commander: Duskmourn")));
    v.push((String::from_str("/3773-commander-innistrad-crimson-vow/"), String::from_str("Commander: Innistrad: Crimson Vow:")));
    v.push((String::from_str("/3708-commander-innistrad-midnight-hunt/"), String::from_str("Commander: Innistrad: Midnight Hunt")));
    v.push((String::from_str("/3888-commander-kamigawa-neon-dynasty/"), String::from_str("Commander: Kamigawa Neon Dynasty")));
    v.push((String::from_str("/4525-commander-march-of-the-machine/"), String::from_str("Commander: March of the Machine:")));
    v.push((String::from_str("/4898-commander-modern-horizons-3/"), String::from_str("Commander: Modern Horizons 3")));
    v.push((String::from_str("/4712-commander-murders-at-karlov-manor/"), String::from_str("Commander: Murders at Karlov Manor")));
    v.push((String::from_str("/4851-commander-outlaws-of-thunder-junction/"), String::from_str("Commander: Outlaws of Thunder Junction")));
    v.push((String::from_str("/4458-commander-phyrexia-all-will-be-one/"), String::from_str("Commander: Phyrexia: All Will Be One")));
    v.push((String::from_str("/3967-commander-streets-of-new-capenna/"), String::from_str("Commander: Streets of New Capenna")));
    v.push((String::from_str("/3478-commander-strixhaven/"), String::from_str("Commander: Strixhaven")));
    v.push((String::from_str("/4082-commander-the-brothers-war/"), String::from_str("Commander: The Brothers' War")));
    v.push((String::from_str("/4576-commander-the-lord-of-the-rings-tales-of-middle-earth/"), String::from_str("Commander: The Lord of the Rings: Tales of Middle-earth")));
    v.push((String::from_str("/4663-commander-the-lost-caverns-of-ixalan/"), String::from_str("Commander: The Lost Caverns of Ixalan")));
    v.push((String::from_str("/4601-commander-wilds-of-eldraine/"), String::from_str("Commander: Wilds of Eldraine")));
    v.push((String::from_str("/2315-conflux/"), String::from_str("Conflux")));
    v.push((String::from_str("/2025-conspiracy/"), String::from_str("Conspiracy")));
    v.push((String::from_str("/2272-conspiracy-take-the-crown/"), String::from_str("Conspiracy Take the Crown")));
    v.push((String::from_str("/2688-core-set-2019/"), String::from_str("Core Set 2019")));
    v.push((String::from_str("/2926-core-set-2020/"), String::from_str("Core Set 2020")));
    v.push((String::from_str("/3139-core-set-2021/"), String::from_str("Core Set 2021")));
    v.push((String::from_str("/2010-dark-ascension/"), String::from_str("Dark Ascension")));
    v.push((String::from_str("/2172-darksteel/"), String::from_str("Darksteel")));
    v.push((String::from_str("/2420-dissension/"), String::from_str("Dissension")));
    v.push((String::from_str("/2625-dominaria/"), String::from_str("Dominaria")));
}

fn push_sections_c(v: &mut Vec<(String, String)>)
    ensures
        final(v)@.len() == old(v)@.len() + 40,
{
    v.push((String::from_str("/4131-dominaria-remastered/"), String::from_str("Dominaria Remastered")));
    v.push((String::from_str("/4024-dominaria-united/"), String::from_str("Dominaria United")));
    v.push((String::from_str("/3142-double-masters/"), String::from_str("Double Masters")));
    v.push((String::from_str("/3992-double-masters-2022/"), String::from_str("Double Masters 2022")));
    v.push((String::from_str("/2059-dragons-maze/"), String::from_str("Dragon's Maze")));
    v.push((String::from_str("/2027-dragons-of-tarkir/"), String::from_str("Dragons of Tarkir")));
    v.push((String::from_str("/2219-duel-decks-ajani-vs-nicol-bolas/"), String::from_str("Duel Decks: Ajani vs. Nicol Bolas")));
    v.push((String::from_str("/2743-duel-decks-archenemy-nicol-bolas/"), String::from_str("Duel Decks: Archenemy: Nicol Bolas")));
    v.push((String::from_str("/2594-duel-decks-blessed-vs-cursed/"), String::from_str("Duel Decks: Blessed vs. Cursed")));
    v.push((String::from_str("/2645-duel-decks-divine-vs-demonic/"), String::from_str("Duel Decks: Divine Vs Demonic")));
    v.push((String::from_str("/2585-duel-decks-elspeth-vs-tezzeret/"), String::from_str("Duel Decks: Elspeth vs Tezzeret")));
    v.push((String::from_str("/2224-duel-decks-elspeth-vs-kiora/"), String::from_str("Duel Decks: Elspeth vs. Kiora")));
    v.push((String::from_str("/2780-duel-decks-elves-vs-goblins/"), String::from_str("Duel Decks: Elves vs Goblins")));
    v.push((String::from_str("/2731-duel-decks-elves-vs-inventors/"), String::from_str("Duel Decks: Elves vs Inventors")));
    v.push((String::from_str("/2193-duel-decks-garruk-vs-liliana/"), String::from_str("Duel Decks: Garruk vs. Liliana")));
    v.push((String::from_str("/2218-duel-decks-heroes-vs-monsters/"), String::from_str("Duel Decks: Heroes vs Monsters")));
    v.push((String::from_str("/2216-duel-decks-izzet-vs-golgari/"), String::from_str("Duel Decks: Izzet vs Golgari")));
    v.push((String::from_str("/2587-duel-decks-jace-vs-chandra/"), String::from_str("Duel Decks: Jace vs Chandra")));
    v.push((String::from_str("/2584-duel-decks-jace-vs-vraska/"), String::from_str("Duel Decks: Jace vs Vraska")));
    v.push((String::from_str("/3349-duel-decks-knights-vs-dragons/"), String::from_str("Duel Decks: Knights vs. Dragons")));
    v.push((String::from_str("/3108-duel-decks-merfolk-vs-goblins/"), String::from_str("Duel Decks: Merfolk vs. Goblins")));
    v.push((String::from_str("/2566-duel-decks-mind-vs-might/"), String::from_str("Duel Decks: Mind vs Might")));
    v.push((String::from_str("/2436-duel-decks-nissa-vs-ob-nixilis/"), String::from_str("Duel Decks: Nissa vs Ob Nixilis")));
    v.push((String::from_str("/2251-duel-decks-phyrexia-vs-the-coalition/"), String::from_str("Duel Decks: Phyrexia vs The Coalition")));
    v.push((String::from_str("/2188-duel-decks-sorin-vs-tibalt/"), String::from_str("Duel Decks: Sorin vs Tibalt")));
    v.push((String::from_str("/2228-duel-decks-speed-vs-cunning/"), String::from_str("Duel Decks: Speed vs Cunning")));
    v.push((String::from_str("/2558-duel-decks-venser-vs-koth/"), String::from_str("Duel Decks: Venser vs Koth")));
    v.push((String::from_str("/2089-duel-decks-zendikar-vs-eldrazi/"), String::from_str("Duel Decks: Zendikar vs Eldrazi")));
    v.push((String::from_str("/2564-duels-of-the-planeswalkers/"), String::from_str("Duels of the Planeswalkers")));
    v.push((String::from_str("/4980-duskmourn-house-of-horror/"), String::from_str("Duskmourn: House of Horror")));
    v.push((String::from_str("/2252-eldritch-moon/"), String::from_str("Eldritch Moon")));
    v.push((String::from_str("/4600-enchanting-tales/"), String::from_str("Enchanting Tales")));
    v.push((String::from_str("/2247-eternal-masters/"), String::from_str("Eternal Masters")));
    v.push((String::from_str("/2340-eventide/"), String::from_str("Eventide")));
    v.push((String::from_str("/3350-exodus/"), String::from_str("Exodus")));
    v.push((String::from_str("/3029-explorers-of-ixalan/"), String::from_str("Explorers of Ixalan")));
    v.push((String::from_str("/2146-fallen-empires/"), String::from_str("Fallen Empires")));
    v.push((String::from_str("/1999-fate-reforged/"), String::from_str("Fate Reforged")));
    v.push((String::from_str("/2173-fifth-dawn/"), String::from_str("Fifth Dawn")));
    v.push((String::from_str("/2575-foreign-black-bordered/"), String::from_str("Foreign Black Bordered")));
}

fn push_sections_d(v: &mut Vec<(String, String)>)
    ensures
        final(v)@.len() == old(v)@.len() + 40,
{
    v.push((String::from_str("/4596-foreign-white-bordered/"), String::from_str("Foreign White Bordered")));
    v.push((String::from_str("/5049-foundations-jumpstart/"), String::from_str("Foundations Jumpstart")));
    v.push((String::from_str("/2194-from-the-vault-angels/"), String::from_str("From the Vault: Angels")));
    v.push((String::from_str("/2004-from-the-vault-annihilation/"), String::from_str("From the Vault: Annihilation")));
    v.push((String::from_str("/2789-from-the-vault-dragons/"), String::from_str("From the Vault: Dragons")));
    v.push((String::from_str("/3724-from-the-vault-exiled/"), String::from_str("From the Vault: Exiled")));
    v.push((String::from_str("/3348-from-the-vault-legends/"), String::from_str("From the Vault: Legends")));
    v.push((String::from_str("/2694-from-the-vault-lore/"), String::from_str("From the Vault: Lore")));
    v.push((String::from_str("/2213-from-the-vault-realms/"), String::from_str("From the Vault: Realms")));
    v.push((String::from_str("/3954-from-the-vault-relics/"), String::from_str("From the Vault: Relics")));
    v.push((String::from_str("/3032-from-the-vault-transform/"), String::from_str("From the Vault: Transform")));
    v.push((String::from_str("/2445-from-the-vault-twenty/"), String::from_str("From the Vault: Twenty")));
    v.push((String::from_str("/2362-future-sight/"), String::from_str("Future Sight")));
    v.push((String::from_str("/2020-gatecrash/"), String::from_str("Gatecrash")));
    v.push((String::from_str("/2217-gateway/"), String::from_str("Gateway")));
    v.push((String::from_str("/2557-gpptfnm-promos/"), String::from_str("GP/PT/FNM Promos")));
    v.push((String::from_str("/2765-guild-kits/"), String::from_str("Guild Kits")));
    v.push((String::from_str("/2061-guildpact/"), String::from_str("Guildpact")));
    v.push((String::from_str("/2735-guilds-of-ravnica/"), String::from_str("Guilds of Ravnica")));
    v.push((String::from_str("/4009-guilds-of-ravnica-mythic-edition/"), String::from_str("Guilds of Ravnica: Mythic Edition")));
    v.push((String::from_str("/2226-homelands/"), String::from_str("Homelands")));
    v.push((String::from_str("/2428-hour-of-devastation/"), String::from_str("Hour of Devastation")));
    v.push((String::from_str("/2148-ice-age/"), String::from_str("Ice Age")));
    v.push((String::from_str("/2523-iconic-masters/"), String::from_str("Iconic Masters")));
    v.push((String::from_str("/3098-ikoria-lair-of-behemoths/"), String::from_str("Ikoria: Lair of Behemoths")));
    v.push((String::from_str("/2058-innistrad/"), String::from_str("Innistrad")));
    v.push((String::from_str("/5091-innistrad-remastered/"), String::from_str("Innistrad Remastered")));
    v.push((String::from_str("/3770-innistrad-crimson-vow/"), String::from_str("Innistrad: Crimson Vow")));
    v.push((String::from_str("/4494-innistrad-double-feature/"), String::from_str("Innistrad: Double Feature")));
    v.push((String::from_str("/3662-innistrad-midnight-hunt/"), String::from_str("Innistrad: Midnight Hunt")));
    v.push((String::from_str("/2189-invasion/"), String::from_str("Invasion")));
    v.push((String::from_str("/2517-ixalan/"), String::from_str("Ixalan")));
    v.push((String::from_str("/2006-journey-into-nyx/"), String::from_str("Journey into Nyx")));
    v.push((String::from_str("/2653-judgment/"), String::from_str("Judgment")));
    v.push((String::from_str("/3196-jumpstart/"), String::from_str("Jumpstart")));
    v.push((String::from_str("/4093-jumpstart-2022/"), String::from_str("Jumpstart 2022")));
    v.push((String::from_str("/2293-kaladesh/"), String::from_str("Kaladesh")));
    v.push((String::from_str("/2332-kaladesh-inventions/"), String::from_str("Kaladesh Inventions")));
    v.push((String::from_str("/3339-kaldheim/"), String::from_str("Kaldheim")));
    v.push((String::from_str("/3341-kaldheim-commander/"), String::from_str("Kaldheim Commander")));
}

fn push_sections_e(v: &mut Vec<(String, String)>)
    ensures
        final(v)@.len() == old(v)@.len() + 40,
{
    v.push((String::from_str("/3861-kamigawa-neon-dynasty/"), String::from_str("Kamigawa: Neon Dynasty")));
    v.push((String::from_str("/3960-kamigawa-neon-dynasty/"), String::from_str("Kamigawa: Neon Dynasty")));
    v.push((String::from_str("/1979-khans-of-tarkir/"), String::from_str("Khans of Tarkir")));
    v.push((String::from_str("/2234-legends/"), String::from_str("Legends")));
    v.push((String::from_str("/2553-legions/"), String::from_str("Legions")));
    v.push((String::from_str("/2009-lorwyn/"), String::from_str("Lorwyn")));
    v.push((String::from_str("/2128-magic-2010/"), String::from_str("Magic 2010")));
    v.push((String::from_str("/2222-magic-2011/"), String::from_str("Magic 2011")));
    v.push((String::from_str("/2221-magic-2012/"), String::from_str("Magic 2012")));
    v.push((String::from_str("/2094-magic-2013/"), String::from_str("Magic 2013")));
    v.push((String::from_str("/2055-magic-2014/"), String::from_str("Magic 2014")));
    v.push((String::from_str("/1980-magic-2015/"), String::from_str("Magic 2015")));
    v.push((String::from_str("/5035-magic-the-gathering-foundations/"), String::from_str("Magic: The Gathering Foundations")));
    v.push((String::from_str("/4524-march-of-the-machine/"), String::from_str("March of the Machine")));
    v.push((String::from_str("/4543-march-of-the-machine-the-aftermath/"), String::from_str("March of the Machine: The Aftermath")));
    v.push((String::from_str("/2608-masters-25/"), String::from_str("Masters 25")));
    v.push((String::from_str("/2008-mercadian-masques/"), String::from_str("Mercadian Masques")));
    v.push((String::from_str("/2550-mirage/"), String::from_str("Mirage")));
    v.push((String::from_str("/2336-mirrodin/"), String::from_str("Mirrodin")));
    v.push((String::from_str("/2210-mirrodin-besieged/"), String::from_str("Mirrodin Besieged")));
    v.push((String::from_str("/2014-modern-event-deck/"), String::from_str("Modern Event Deck")));
    v.push((String::from_str("/2913-modern-horizons/"), String::from_str("Modern Horizons")));
    v.push((String::from_str("/3578-modern-horizons-2/"), String::from_str("Modern Horizons 2")));
    v.push((String::from_str("/4896-modern-horizons-3/"), String::from_str("Modern Horizons 3")));
    v.push((String::from_str("/2300-modern-masters-2013/"), String::from_str("Modern Masters 2013")));
    v.push((String::from_str("/2053-modern-masters-2015/"), String::from_str("Modern Masters 2015")));
    v.push((String::from_str("/2354-modern-masters-2017/"), String::from_str("Modern Masters 2017")));
    v.push((String::from_str("/2176-morningtide/"), String::from_str("Morningtide")));
    v.push((String::from_str("/4526-multiverse-legends/"), String::from_str("Multiverse Legends:")));
    v.push((String::from_str("/4708-murders-at-karlov-manor/"), String::from_str("Murders at Karlov Manor")));
    v.push((String::from_str("/3053-mystery-booster/"), String::from_str("Mystery Booster")));
    v.push((String::from_str("/3985-mystery-booster-playtest-cards/"), String::from_str("Mystery Booster: Playtest Cards:")));
    v.push((String::from_str("/2227-nemesis/"), String::from_str("Nemesis")));
    v.push((String::from_str("/2211-new-phyrexia/"), String::from_str("New Phyrexia")));
    v.push((String::from_str("/2162-oath-of-the-gatewatch/"), String::from_str("Oath of the Gatewatch")));
    v.push((String::from_str("/2581-odyssey/"), String::from_str("Odyssey")));
    v.push((String::from_str("/2007-onslaught/"), String::from_str("Onslaught")));
    v.push((String::from_str("/2075-origins/"), String::from_str("Origins")));
    v.push((String::from_str("/4852-outlaws-of-thunder-junction/"), String::from_str("Outlaws of Thunder Junction")));
    v.push((String::from_str("/4456-phyrexia-all-will-be-one/"), String::from_str("Phyrexia: All Will Be One")));
}

fn push_sections_f(v: &mut Vec<(String, String)>)
    ensures
        final(v)@.len() == old(v)@.len() + 40,
{
    v.push((String::from_str("/2187-planar-chaos/"), String::from_str("Planar Chaos")));
    v.push((String::from_str("/2560-planechase/"), String::from_str("Planechase")));
    v.push((String::from_str("/3028-planechase-2012/"), String::from_str("Planechase 2012")));
    v.push((String::from_str("/2658-planechase-anthology/"), String::from_str("Planechase Anthology")));
    v.push((String::from_str("/2565-planeshift/"), String::from_str("Planeshift")));
    v.push((String::from_str("/2337-portal/"), String::from_str("Portal")));
    v.push((String::from_str("/2632-portal-second-age/"), String::from_str("Portal Second Age")));
    v.push((String::from_str("/4826-portal-three-kingdoms/"), String::from_str("Portal Three Kingdoms")));
    v.push((String::from_str("/2633-premium-deck-fire-and-lightning/"), String::from_str("Premium Deck - Fire and Lightning")));
    v.push((String::from_str("/2790-premium-deck-graveborn/"), String::from_str("Premium Deck - Graveborn")));
    v.push((String::from_str("/2696-premium-deck-slivers/"), String::from_str("Premium Deck - Slivers")));
    v.push((String::from_str("/2555-prophecy/"), String::from_str("Prophecy")));
    v.push((String::from_str("/2130-ravnica/"), String::from_str("Ravnica")));
    v.push((String::from_str("/2791-ravnica-allegiance/"), String::from_str("Ravnica Allegiance")));
    v.push((String::from_str("/2812-ravnica-allegiance-guild-kits/"), String::from_str("Ravnica Allegiance Guild kits")));
    v.push((String::from_str("/4694-ravnica-remasterd/"), String::from_str("Ravnica Remasterd")));
    v.push((String::from_str("/5053-ravnica-cluedo-edition/"), String::from_str("Ravnica: Cluedo Edition")));
    v.push((String::from_str("/2056-return-to-ravnica/"), String::from_str("Return to Ravnica")));
    v.push((String::from_str("/2147-revised-3rd/"), String::from_str("Revised (3RD)")));
    v.push((String::from_str("/2126-rise-of-the-eldrazi/"), String::from_str("Rise of the Eldrazi")));
    v.push((String::from_str("/2548-rivals-of-ixalan/"), String::from_str("Rivals of Ixalan")));
    v.push((String::from_str("/2554-saviors-of-kamigawa/"), String::from_str("Saviors of Kamigawa")));
    v.push((String::from_str("/2175-scars-of-mirrodin/"), String::from_str("Scars of Mirrodin")));
    v.push((String::from_str("/2582-scourge/"), String::from_str("Scourge")));
    v.push((String::from_str("/3860-secret-lair-drop-series/"), String::from_str("Secret Lair Drop Series:")));
    v.push((String::from_str("/4115-secret-lair-drop-series-30th-anniversary-countdown-kit/"), String::from_str("Secret Lair Drop Series: 30th Anniversary Countdown Kit")));
    v.push((String::from_str("/2341-shadowmoor/"), String::from_str("Shadowmoor")));
    v.push((String::from_str("/2196-shadows-over-innistrad/"), String::from_str("Shadows over Innistrad")));
    v.push((String::from_str("/2347-shards-of-alara/"), String::from_str("Shards of Alara")));
    v.push((String::from_str("/4134-signature-spellbook-jace/"), String::from_str("Signature Spellbook: Jace")));
    v.push((String::from_str("/4671-special-guests/"), String::from_str("Special Guests")));
    v.push((String::from_str("/4532-starter-commander-decks/"), String::from_str("Starter Commander Decks")));
    v.push((String::from_str("/3961-streets-of-new-capenna/"), String::from_str("Streets of New Capenna")));
    v.push((String::from_str("/3482-strixhaven-school-of-mages/"), String::from_str("Strixhaven: School of Mages")));
    v.push((String::from_str("/2316-stronghold/"), String::from_str("Stronghold")));
    v.push((String::from_str("/2223-tempest/"), String::from_str("Tempest")));
    v.push((String::from_str("/4854-the-big-score/"), String::from_str("The Big Score")));
    v.push((String::from_str("/4078-the-brothers-war/"), String::from_str("The Brothers' War")));
    v.push((String::from_str("/2574-the-dark/"), String::from_str("The Dark")));
    v.push((String::from_str("/3354-the-list/"), String::from_str("The List")));
}

fn push_sections_g(v: &mut Vec<(String, String)>)
    ensures
        final(v)@.len() == old(v)@.len() + 38,
{
    v.push((String::from_str("/4464-the-list-secret-lair/"), String::from_str("The List: Secret Lair")));
    v.push((String::from_str("/4575-the-lord-of-the-rings-tales-of-middle-earth/"), String::from_str("The Lord of the Rings: Tales of Middle-earth:")));
    v.push((String::from_str("/4662-the-lost-caverns-of-ixalan/"), String::from_str("The Lost Caverns of Ixalan")));
    v.push((String::from_str("/2012-theros/"), String::from_str("Theros")));
    v.push((String::from_str("/3023-theros-beyond-death/"), String::from_str("Theros: Beyond Death")));
    v.push((String::from_str("/2973-throne-of-eldraine/"), String::from_str("Throne of Eldraine")));
    v.push((String::from_str("/2215-time-spiral/"), String::from_str("Time Spiral")));
    v.push((String::from_str("/3379-time-spiral-remastered/"), String::from_str("Time Spiral Remastered")));
    v.push((String::from_str("/2561-timeshifted/"), String::from_str("Timeshifted")));
    v.push((String::from_str("/2563-torment/"), String::from_str("Torment")));
    v.push((String::from_str("/2779-ultimate-masters/"), String::from_str("Ultimate Masters")));
    v.push((String::from_str("/4062-unfinity/"), String::from_str("Unfinity")));
    v.push((String::from_str("/2549-unglued/"), String::from_str("Unglued")));
    v.push((String::from_str("/2177-unhinged/"), String::from_str("Unhinged")));
    v.push((String::from_str("/4646-universes-beyond-doctor-who/"), String::from_str("Universes Beyond: Doctor Who")));
    v.push((String::from_str("/4836-universes-beyond-fallout/"), String::from_str("Universes Beyond: Fallout")));
    v.push((String::from_str("/4670-universes-beyond-jurassic-world-collection/"), String::from_str("Universes Beyond: Jurassic World Collection")));
    v.push((String::from_str("/4080-universes-beyond-transformers/"), String::from_str("Universes Beyond: Transformers")));
    v.push((String::from_str("/4063-universes-beyond-warhammer-40000/"), String::from_str("Universes Beyond: Warhammer 40,000")));
    v.push((String::from_str("/4607-universes-within/"), String::from_str("Universes Within")));
    v.push((String::from_str("/2320-unlimited/"), String::from_str("Unlimited")));
    v.push((String::from_str("/3984-unsanctioned/"), String::from_str("Unsanctioned")));
    v.push((String::from_str("/2773-unstable/"), String::from_str("Unstable")));
    v.push((String::from_str("/2317-urzas-destiny/"), String::from_str("Urza's Destiny")));
    v.push((String::from_str("/2318-urzas-legacy/"), String::from_str("Urza's Legacy")));
    v.push((String::from_str("/2060-urzas-saga/"), String::from_str("Urza's Saga")));
    v.push((String::from_str("/2212-visions/"), String::from_str("Visions")));
    v.push((String::from_str("/2892-war-of-the-spark/"), String::from_str("War of the Spark")));
    v.push((String::from_str("/2748-weatherlight/"), String::from_str("Weatherlight")));
    v.push((String::from_str("/5083-welcome-deck-2016/"), String::from_str("Welcome Deck 2016")));
    v.push((String::from_str("/5082-welcome-deck-2017/"), String::from_str("Welcome Deck 2017")));
    v.push((String::from_str("/4599-wilds-of-eldraine/"), String::from_str("Wilds of Eldraine")));
    v.push((String::from_str("/4648-world-cup-decks/"), String::from_str("World Cup Decks")));
    v.push((String::from_str("/2335-worldwake/"), String::from_str("Worldwake")));
    v.push((String::from_str("/2057-zendikar/"), String::from_str("Zendikar")));
    v.push((String::from_str("/2181-zendikar-expeditions/"), String::from_str("Zendikar Expeditions")));
    v.push((String::from_str("/3151-zendikar-rising/"), String::from_str("Zendikar Rising")));
    v.push((String::from_str("/3156-zendikar-rising-commander/"), String::from_str("Zendikar Rising Commander")));
}

/// Every card-listing section of the storefront's catalogue, as
/// (page path, set name) pairs.
pub fn alphaspel_page_set_endings() -> (r: Vec<(String, String)>)
    ensures
        r@.len() == 278,
{
    let mut v: Vec<(String, String)> = Vec::new();
    push_sections_a(&mut v);
    push_sections_b(&mut v);
    push_sections_c(&mut v);
    push_sections_d(&mut v);
    push_sections_e(&mut v);
    push_sections_f(&mut v);
    push_sections_g(&mut v);
    v
}

} // verus!
